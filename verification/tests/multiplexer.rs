use netidx_excel::bus::BusValue;
use netidx_excel::rtd::{net_set_convert, SetOutcome};
use netidx_excel::setter::{BusAction, Setter};
use netidx_excel::xloper12::{Ownership, XLOper12, XlVal};

fn f64v(v: f64) -> BusValue {
    BusValue::F64(v.to_bits())
}

#[test]
fn empty_queue_yields_nothing() {
    let mut s = Setter::new();
    assert!(s.process_next().is_none());
}

#[test]
fn first_write_creates_the_subscription() {
    let mut s = Setter::new();
    s.set(String::from("/x"), f64v(1.0));
    let acts = s.process_next().unwrap();
    assert_eq!(
        acts,
        vec![
            BusAction::Subscribe(String::from("/x")),
            BusAction::Write(String::from("/x"), f64v(1.0)),
        ]
    );
}

#[test]
fn second_write_reuses_the_subscription() {
    let mut s = Setter::new();
    s.set(String::from("/x"), f64v(1.0));
    s.set(String::from("/x"), f64v(2.0));
    let acts = s.process_all();
    assert_eq!(
        acts,
        vec![
            BusAction::Subscribe(String::from("/x")),
            BusAction::Write(String::from("/x"), f64v(1.0)),
            BusAction::Write(String::from("/x"), f64v(2.0)),
        ]
    );
}

#[test]
fn interleaved_paths_keep_submission_order() {
    // set(A), set(B), set(A): writes observed as A, B, A, one subscription
    // per path.
    let mut s = Setter::new();
    s.set(String::from("/a"), f64v(1.0));
    s.set(String::from("/b"), f64v(2.0));
    s.set(String::from("/a"), f64v(3.0));
    let acts = s.process_all();
    assert_eq!(
        acts,
        vec![
            BusAction::Subscribe(String::from("/a")),
            BusAction::Write(String::from("/a"), f64v(1.0)),
            BusAction::Subscribe(String::from("/b")),
            BusAction::Write(String::from("/b"), f64v(2.0)),
            BusAction::Write(String::from("/a"), f64v(3.0)),
        ]
    );
}

#[test]
fn end_to_end_set_f64_then_string() {
    // set("/x", F64(3.14), "f64") then set("/x", "hello", "string"): one
    // subscription on /x, two writes in order.
    let mut s = Setter::new();
    let numcell = XLOper12 { own: Ownership::Static, val: XlVal::Num(3.14f64.to_bits()) };
    let v1 = match net_set_convert(Some("f64"), &numcell) {
        Some(SetOutcome::Ready(v)) => v,
        other => panic!("unexpected: {:?}", other),
    };
    let textcell = XLOper12::from_utf8("hello".as_bytes());
    let v2 = match net_set_convert(Some("string"), &textcell) {
        Some(SetOutcome::Ready(v)) => v,
        other => panic!("unexpected: {:?}", other),
    };
    s.set(String::from("/x"), v1);
    s.set(String::from("/x"), v2);
    let acts = s.process_all();
    assert_eq!(
        acts,
        vec![
            BusAction::Subscribe(String::from("/x")),
            BusAction::Write(String::from("/x"), f64v(3.14)),
            BusAction::Write(String::from("/x"), BusValue::Text(String::from("hello"))),
        ]
    );
}

#[test]
fn processing_is_incremental() {
    let mut s = Setter::new();
    s.set(String::from("/p"), BusValue::Null);
    s.set(String::from("/p"), BusValue::Bool(true));
    let first = s.process_next().unwrap();
    assert_eq!(first.len(), 2);
    let second = s.process_next().unwrap();
    assert_eq!(
        second,
        vec![BusAction::Write(String::from("/p"), BusValue::Bool(true))]
    );
    assert!(s.process_next().is_none());
}
