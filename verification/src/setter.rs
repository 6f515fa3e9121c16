//! The subscription multiplexer: a single consumer that deduplicates
//! concurrent writes to the same bus path into one long-lived subscription
//! and applies the writes strictly in submission order.
//!
//! Producers only enqueue; the consuming side drains the queue and decides,
//! for each request, whether the path already has a live subscription. The
//! decisions are fully verified here; performing them against the real bus
//! (creating the subscription, sending the write) is the unverified rim's
//! loop, which executes the `BusAction`s this model hands out, in order.
//! Paths are never removed from the subscription set: the bridge keeps
//! every subscription until session teardown, a known scaling limit.
use crate::bus::BusValue;
use vstd::prelude::*;

verus! {

/// One bus operation, in the order the consumer must perform them.
#[derive(Debug, PartialEq)]
pub enum BusAction {
    /// Create the one live subscription for this path.
    Subscribe(String),
    /// Write the value through the path's subscription.
    Write(String, BusValue),
}

/// The ghost image of a bus action: the path by content, the value itself.
pub enum ActModel {
    Sub(Seq<char>),
    Wr(Seq<char>, BusValue),
}

pub open spec fn act_model(a: BusAction) -> ActModel {
    match a {
        BusAction::Subscribe(p) => ActModel::Sub(p@),
        BusAction::Write(p, v) => ActModel::Wr(p@, v),
    }
}

/// What the consumer does with a queue of requests, starting from a set of
/// already-subscribed paths: for a known path, one write; for an unseen
/// path, the one subscription creation followed by the write; requests in
/// order, nothing coalesced, nothing dropped.
pub open spec fn spec_run(subs: Seq<Seq<char>>, reqs: Seq<(Seq<char>, BusValue)>) -> (
    Seq<Seq<char>>,
    Seq<ActModel>,
)
    decreases reqs.len(),
{
    if reqs.len() == 0 {
        (subs, Seq::empty())
    } else {
        let p = reqs[0].0;
        let v = reqs[0].1;
        if subs.contains(p) {
            let rest = spec_run(subs, reqs.skip(1));
            (rest.0, seq![ActModel::Wr(p, v)] + rest.1)
        } else {
            let rest = spec_run(subs.push(p), reqs.skip(1));
            (rest.0, seq![ActModel::Sub(p), ActModel::Wr(p, v)] + rest.1)
        }
    }
}

/// The write requests an action trace performs, in order.
pub open spec fn spec_writes(acts: Seq<ActModel>) -> Seq<(Seq<char>, BusValue)>
    decreases acts.len(),
{
    if acts.len() == 0 {
        Seq::empty()
    } else {
        match acts[0] {
            ActModel::Wr(p, v) => seq![(p, v)] + spec_writes(acts.skip(1)),
            ActModel::Sub(_) => spec_writes(acts.skip(1)),
        }
    }
}

/// How often an action trace creates a subscription for `p`.
pub open spec fn spec_sub_count(acts: Seq<ActModel>, p: Seq<char>) -> nat
    decreases acts.len(),
{
    if acts.len() == 0 {
        0
    } else {
        (match acts[0] {
            ActModel::Sub(q) => if q == p {
                1nat
            } else {
                0nat
            },
            ActModel::Wr(_, _) => 0nat,
        }) + spec_sub_count(acts.skip(1), p)
    }
}

pub open spec fn spec_req_paths(reqs: Seq<(Seq<char>, BusValue)>) -> Seq<Seq<char>> {
    reqs.map(|i: int, r: (Seq<char>, BusValue)| r.0)
}

/// Order and fidelity of writes: the consumer performs exactly the queued
/// requests as writes, in submission order — none coalesced, none dropped,
/// none reordered.
pub proof fn lemma_writes_in_order(subs: Seq<Seq<char>>, reqs: Seq<(Seq<char>, BusValue)>)
    ensures
        spec_writes(spec_run(subs, reqs).1) == reqs,
    decreases reqs.len(),
{
    if reqs.len() == 0 {
        assert(spec_writes(spec_run(subs, reqs).1) =~= reqs);
    } else {
        let p = reqs[0].0;
        let v = reqs[0].1;
        if subs.contains(p) {
            lemma_writes_in_order(subs, reqs.skip(1));
            let acts = spec_run(subs, reqs).1;
            assert(acts.skip(1) =~= spec_run(subs, reqs.skip(1)).1);
            assert(spec_writes(acts) =~= reqs);
        } else {
            lemma_writes_in_order(subs.push(p), reqs.skip(1));
            let acts = spec_run(subs, reqs).1;
            let rest = spec_run(subs.push(p), reqs.skip(1)).1;
            assert(acts.skip(1) =~= seq![ActModel::Wr(p, v)] + rest);
            assert((seq![ActModel::Wr(p, v)] + rest).skip(1) =~= rest);
            assert(spec_writes(seq![ActModel::Wr(p, v)] + rest) =~= seq![(p, v)] + spec_writes(
                rest,
            ));
            assert(spec_writes(acts) =~= reqs);
        }
    }
}

/// One subscription per path: the consumer creates a subscription for `p`
/// exactly once if some request names `p` and no subscription exists yet,
/// and never if one already does — however many requests name `p`.
pub proof fn lemma_one_subscription(
    subs: Seq<Seq<char>>,
    reqs: Seq<(Seq<char>, BusValue)>,
    p: Seq<char>,
)
    ensures
        spec_sub_count(spec_run(subs, reqs).1, p) == if subs.contains(p) {
            0nat
        } else if spec_req_paths(reqs).contains(p) {
            1nat
        } else {
            0nat
        },
    decreases reqs.len(),
{
    if reqs.len() == 0 {
        assert(!spec_req_paths(reqs).contains(p)) by {
            assert(spec_req_paths(reqs).len() == 0);
        }
    } else {
        let q = reqs[0].0;
        let v = reqs[0].1;
        let tail = reqs.skip(1);
        assert(spec_req_paths(tail) =~= spec_req_paths(reqs).skip(1));
        if subs.contains(q) {
            lemma_one_subscription(subs, tail, p);
            let acts = spec_run(subs, reqs).1;
            let rest = spec_run(subs, tail).1;
            assert(acts.skip(1) =~= rest);
            assert(spec_sub_count(acts, p) == spec_sub_count(rest, p));
            if !subs.contains(p) {
                lemma_contains_head_tail(spec_req_paths(reqs), p);
                if spec_req_paths(reqs).contains(p) {
                    assert(q != p || subs.contains(p));
                    assert(spec_req_paths(tail).contains(p));
                }
            }
        } else {
            lemma_one_subscription(subs.push(q), tail, p);
            let acts = spec_run(subs, reqs).1;
            let rest = spec_run(subs.push(q), tail).1;
            assert(acts.skip(1) =~= seq![ActModel::Wr(q, v)] + rest);
            assert((seq![ActModel::Wr(q, v)] + rest).skip(1) =~= rest);
            assert(spec_sub_count(seq![ActModel::Wr(q, v)] + rest, p) == spec_sub_count(rest, p));
            assert(spec_sub_count(acts, p) == (if q == p {
                1nat
            } else {
                0nat
            }) + spec_sub_count(rest, p));
            if q == p {
                assert(subs.push(q).contains(p)) by {
                    assert(subs.push(q)[subs.len() as int] == p);
                }
                assert(spec_req_paths(reqs)[0] == q);
                assert(spec_req_paths(reqs).contains(p));
            } else {
                assert(subs.push(q).contains(p) == subs.contains(p)) by {
                    if subs.push(q).contains(p) {
                        let i = choose|i: int|
                            0 <= i < subs.push(q).len() && subs.push(q)[i] == p;
                        assert(i < subs.len());
                        assert(subs[i] == p);
                    }
                    if subs.contains(p) {
                        let i = choose|i: int| 0 <= i < subs.len() && subs[i] == p;
                        assert(subs.push(q)[i] == p);
                    }
                }
                lemma_contains_head_tail(spec_req_paths(reqs), p);
            }
        }
    }
}

proof fn lemma_contains_head_tail(s: Seq<Seq<char>>, p: Seq<char>)
    requires
        s.len() > 0,
    ensures
        s.contains(p) == (s[0] == p || s.skip(1).contains(p)),
{
    if s.contains(p) {
        let i = choose|i: int| 0 <= i < s.len() && s[i] == p;
        if i > 0 {
            assert(s.skip(1)[i - 1] == p);
        }
    }
    if s.skip(1).contains(p) {
        let i = choose|i: int| 0 <= i < s.skip(1).len() && s.skip(1)[i] == p;
        assert(s[i + 1] == p);
    }
}

/// The multiplexer: the producers' FIFO queue and the consumer's set of
/// live subscriptions.
pub struct Setter {
    queue: Vec<(String, BusValue)>,
    subs: Vec<String>,
}

impl Setter {
    pub closed spec fn queue_view(self) -> Seq<(Seq<char>, BusValue)> {
        self.queue@.map(|i: int, pv: (String, BusValue)| (pv.0@, pv.1))
    }

    pub closed spec fn subs_view(self) -> Seq<Seq<char>> {
        self.subs@.map(|i: int, s: String| s@)
    }

    /// A fresh multiplexer: no subscriptions, nothing queued. The bus
    /// connection itself is the rim's to open.
    pub fn new() -> (r: Setter)
        ensures
            r.queue_view() == Seq::<(Seq<char>, BusValue)>::empty(),
            r.subs_view() == Seq::<Seq<char>>::empty(),
    {
        let r = Setter { queue: Vec::new(), subs: Vec::new() };
        proof {
            assert(r.queue_view() =~= Seq::<(Seq<char>, BusValue)>::empty());
            assert(r.subs_view() =~= Seq::<Seq<char>>::empty());
        }
        r
    }

    /// Enqueues a write request. Never blocks and never fails: the request
    /// only joins the queue, in submission order.
    pub fn set(&mut self, path: String, value: BusValue)
        ensures
            final(self).queue_view() == old(self).queue_view().push((path@, value)),
            final(self).subs_view() == old(self).subs_view(),
    {
        let ghost gpath = path@;
        let ghost gval = value;
        self.queue.push((path, value));
        proof {
            assert(final(self).queue_view() =~= old(self).queue_view().push((gpath, gval)));
            assert(final(self).subs_view() =~= old(self).subs_view());
        }
    }

    fn find_sub(&self, path: &String) -> (r: bool)
        ensures
            r == self.subs_view().contains(path@),
    {
        let mut i: usize = 0;
        while i < self.subs.len()
            invariant
                i <= self.subs@.len(),
                forall|j: int| 0 <= j < i ==> self.subs_view()[j] != path@,
            decreases self.subs@.len() - i,
        {
            if self.subs[i].eq(path) {
                proof {
                    assert(self.subs_view()[i as int] == path@);
                }
                return true;
            }
            i = i + 1;
        }
        proof {
            if self.subs_view().contains(path@) {
                let j = choose|j: int|
                    0 <= j < self.subs_view().len() && self.subs_view()[j] == path@;
                assert(false);
            }
        }
        false
    }

    /// Takes the oldest queued request and decides what the bus must see:
    /// a lone write for a known path, or the path's one subscription
    /// creation followed by the write. Yields nothing on an empty queue.
    pub fn process_next(&mut self) -> (r: Option<Vec<BusAction>>)
        ensures
            old(self).queue_view().len() == 0 ==> r is None && *final(self) == *old(self),
            old(self).queue_view().len() > 0 ==> (r matches Some(acts) && {
                let p = old(self).queue_view()[0].0;
                let v = old(self).queue_view()[0].1;
                &&& final(self).queue_view() == old(self).queue_view().skip(1)
                &&& if old(self).subs_view().contains(p) {
                    &&& acts@.map(|i: int, a: BusAction| act_model(a)) == seq![ActModel::Wr(p, v)]
                    &&& final(self).subs_view() == old(self).subs_view()
                } else {
                    &&& acts@.map(|i: int, a: BusAction| act_model(a)) == seq![
                        ActModel::Sub(p),
                        ActModel::Wr(p, v),
                    ]
                    &&& final(self).subs_view() == old(self).subs_view().push(p)
                }
            }),
    {
        if self.queue.len() == 0 {
            return None;
        }
        let (path, value) = self.queue.remove(0);
        proof {
            assert(self.queue_view() =~= old(self).queue_view().skip(1));
            assert(path@ == old(self).queue_view()[0].0);
            assert(value == old(self).queue_view()[0].1);
        }
        let mut acts: Vec<BusAction> = Vec::new();
        if self.find_sub(&path) {
            acts.push(BusAction::Write(path, value));
            proof {
                assert(acts@.map(|i: int, a: BusAction| act_model(a)) =~= seq![
                    ActModel::Wr(old(self).queue_view()[0].0, old(self).queue_view()[0].1),
                ]);
            }
            Some(acts)
        } else {
            let ghost gsubs = self.subs_view();
            acts.push(BusAction::Subscribe(path.clone()));
            self.subs.push(path.clone());
            acts.push(BusAction::Write(path, value));
            proof {
                assert(acts@.map(|i: int, a: BusAction| act_model(a)) =~= seq![
                    ActModel::Sub(old(self).queue_view()[0].0),
                    ActModel::Wr(old(self).queue_view()[0].0, old(self).queue_view()[0].1),
                ]);
                assert(self.subs_view() =~= old(self).subs_view().push(
                    old(self).queue_view()[0].0,
                ));
                assert(self.queue_view() =~= old(self).queue_view().skip(1));
            }
            Some(acts)
        }
    }

    /// Drains the whole queue, in order, and hands back everything the bus
    /// must see, exactly as `spec_run` describes it.
    pub fn process_all(&mut self) -> (acts: Vec<BusAction>)
        ensures
            final(self).queue_view().len() == 0,
            final(self).subs_view() == spec_run(old(self).subs_view(), old(self).queue_view()).0,
            acts@.map(|i: int, a: BusAction| act_model(a)) == spec_run(
                old(self).subs_view(),
                old(self).queue_view(),
            ).1,
    {
        let mut acts: Vec<BusAction> = Vec::new();
        proof {
            assert(acts@.map(|i: int, a: BusAction| act_model(a)) =~= Seq::<ActModel>::empty());
            assert(spec_run(old(self).subs_view(), old(self).queue_view()).1 =~= acts@.map(
                |i: int, a: BusAction| act_model(a),
            ) + spec_run(self.subs_view(), self.queue_view()).1);
        }
        loop
            invariant
                spec_run(old(self).subs_view(), old(self).queue_view()).0 == spec_run(
                    self.subs_view(),
                    self.queue_view(),
                ).0,
                spec_run(old(self).subs_view(), old(self).queue_view()).1 == acts@.map(
                    |i: int, a: BusAction| act_model(a),
                ) + spec_run(self.subs_view(), self.queue_view()).1,
            decreases self.queue_view().len(),
        {
            let ghost pre = *self;
            let ghost pre_acts_models = acts@.map(|i: int, a: BusAction| act_model(a));
            match self.process_next() {
                None => {
                    proof {
                        assert(spec_run(self.subs_view(), self.queue_view()).1 =~= Seq::<
                            ActModel,
                        >::empty());
                        assert(pre_acts_models + Seq::<ActModel>::empty() =~= pre_acts_models);
                        assert(spec_run(self.subs_view(), self.queue_view()).0
                            =~= self.subs_view());
                    }
                    return acts;
                },
                Some(mut step) => {
                    let ghost step_models = step@.map(|i: int, a: BusAction| act_model(a));
                    proof {
                        let p = pre.queue_view()[0].0;
                        let v = pre.queue_view()[0].1;
                        if pre.subs_view().contains(p) {
                            assert(spec_run(pre.subs_view(), pre.queue_view()).1 =~= step_models
                                + spec_run(self.subs_view(), self.queue_view()).1);
                        } else {
                            assert(spec_run(pre.subs_view(), pre.queue_view()).1 =~= step_models
                                + spec_run(self.subs_view(), self.queue_view()).1);
                        }
                    }
                    while step.len() > 0
                        invariant
                            acts@.map(|i: int, a: BusAction| act_model(a)) + step@.map(
                                |i: int, a: BusAction| act_model(a),
                            ) == pre_acts_models + step_models,
                        decreases step@.len(),
                    {
                        let ghost before_acts = acts@;
                        let ghost before_step = step@;
                        let a = step.remove(0);
                        acts.push(a);
                        proof {
                            assert(acts@.map(|i: int, aa: BusAction| act_model(aa))
                                =~= before_acts.map(|i: int, aa: BusAction| act_model(aa)).push(
                                act_model(before_step[0]),
                            ));
                            assert(step@.map(|i: int, aa: BusAction| act_model(aa))
                                =~= before_step.map(|i: int, aa: BusAction| act_model(aa)).skip(1));
                            assert(acts@.map(|i: int, aa: BusAction| act_model(aa)) + step@.map(
                                |i: int, aa: BusAction| act_model(aa),
                            ) =~= before_acts.map(|i: int, aa: BusAction| act_model(aa))
                                + before_step.map(|i: int, aa: BusAction| act_model(aa)));
                        }
                    }
                    proof {
                        assert(step@.map(|i: int, a: BusAction| act_model(a)) =~= Seq::<
                            ActModel,
                        >::empty());
                        assert(acts@.map(|i: int, a: BusAction| act_model(a)) =~= pre_acts_models
                            + step_models);
                        assert(pre_acts_models + step_models + spec_run(
                            self.subs_view(),
                            self.queue_view(),
                        ).1 =~= pre_acts_models + (step_models + spec_run(
                            self.subs_view(),
                            self.queue_view(),
                        ).1));
                    }
                },
            }
        }
    }
}

} // verus!
