//! Verified rendering of integers to decimal and hexadecimal ASCII text,
//! and the one trusted conversion from ASCII bytes to a `String`.
use vstd::prelude::*;

verus! {

/// Decimal digits of `n`, most significant first, as ASCII bytes.
pub open spec fn dec_rep(n: nat) -> Seq<u8>
    decreases n,
{
    if n < 10 {
        seq![(48 + n) as u8]
    } else {
        dec_rep(n / 10).push((48 + n % 10) as u8)
    }
}

/// The same digits as characters.
pub open spec fn dec_chars(n: nat) -> Seq<char> {
    dec_rep(n).map(|i: int, b: u8| b as char)
}

/// Decimal rendering of a signed value, with a leading minus sign when negative.
pub open spec fn int_dec_chars(w: int) -> Seq<char> {
    if w >= 0 {
        dec_chars(w as nat)
    } else {
        seq!['-'] + dec_chars((-w) as nat)
    }
}

pub proof fn lemma_dec_rep_ascii(n: nat)
    ensures
        forall|i: int| 0 <= i < dec_rep(n).len() ==> 48 <= #[trigger] dec_rep(n)[i] < 58,
    decreases n,
{
    if n >= 10 {
        lemma_dec_rep_ascii(n / 10);
        assert forall|i: int| 0 <= i < dec_rep(n).len() implies 48 <= #[trigger] dec_rep(n)[i]
            < 58 by {
            if i < dec_rep(n).len() - 1 {
                assert(dec_rep(n)[i] == dec_rep(n / 10)[i]);
            }
        }
    }
}

/// Appends the decimal digits of `n` to `v`.
pub fn push_dec(v: &mut Vec<u8>, n: u32)
    ensures
        final(v)@ == old(v)@ + dec_rep(n as nat),
    decreases n,
{
    if n < 10 {
        v.push(48 + n as u8);
        assert(v@ =~= old(v)@ + dec_rep(n as nat));
    } else {
        push_dec(v, n / 10);
        v.push(48 + (n % 10) as u8);
        assert(v@ =~= old(v)@ + dec_rep(n as nat));
    }
}

/// Hexadecimal digits of `n`, exactly `width` of them, most significant first,
/// lowercase, as ASCII bytes.
pub open spec fn hex_rep(n: nat, width: nat) -> Seq<u8>
    decreases width,
{
    if width == 0 {
        Seq::empty()
    } else {
        hex_rep(n / 16, (width - 1) as nat).push(hex_digit(n % 16))
    }
}

pub open spec fn hex_digit(d: nat) -> u8 {
    if d < 10 {
        (48 + d) as u8
    } else {
        (87 + d) as u8
    }
}

/// The same digits as characters.
pub open spec fn hex_chars(n: nat, width: nat) -> Seq<char> {
    hex_rep(n, width).map(|i: int, b: u8| b as char)
}

pub proof fn lemma_hex_rep_ascii(n: nat, width: nat)
    ensures
        forall|i: int| 0 <= i < hex_rep(n, width).len() ==> #[trigger] hex_rep(n, width)[i] < 128,
    decreases width,
{
    if width > 0 {
        lemma_hex_rep_ascii(n / 16, (width - 1) as nat);
        assert forall|i: int| 0 <= i < hex_rep(n, width).len() implies #[trigger] hex_rep(
            n,
            width,
        )[i] < 128 by {
            if i < hex_rep(n, width).len() - 1 {
                assert(hex_rep(n, width)[i] == hex_rep(n / 16, (width - 1) as nat)[i]);
            }
        }
    }
}

/// Appends exactly `width` lowercase hex digits of `n` to `v`.
pub fn push_hex(v: &mut Vec<u8>, n: u64, width: usize)
    ensures
        final(v)@ == old(v)@ + hex_rep(n as nat, width as nat),
    decreases width,
{
    if width == 0 {
        assert(v@ =~= old(v)@ + hex_rep(n as nat, 0));
    } else {
        push_hex(v, n / 16, width - 1);
        let d: u64 = n % 16;
        if d < 10 {
            v.push(48 + d as u8);
        } else {
            v.push(87 + d as u8);
        }
        assert(v@ =~= old(v)@ + hex_rep(n as nat, width as nat));
    }
}

/// Relies on `String::from_utf8`: bytes below 128 decode to exactly one
/// character each, with the same code.
#[verifier::external_body]
pub(crate) fn string_from_ascii(bytes: Vec<u8>) -> (r: String)
    requires
        forall|i: int| 0 <= i < bytes@.len() ==> bytes@[i] < 128,
    ensures
        r@.len() == bytes@.len(),
        forall|i: int| 0 <= i < bytes@.len() ==> r@[i] == #[trigger] bytes@[i] as char,
{
    match String::from_utf8(bytes) {
        Ok(s) => s,
        Err(_) => String::new(),
    }
}

/// Decimal rendering of an unsigned value.
pub fn u32_to_string(n: u32) -> (r: String)
    ensures
        r@ == dec_chars(n as nat),
{
    let mut v: Vec<u8> = Vec::new();
    push_dec(&mut v, n);
    proof {
        lemma_dec_rep_ascii(n as nat);
    }
    let r: String = string_from_ascii(v);
    proof {
        assert(r@ =~= dec_chars(n as nat));
    }
    r
}

/// Decimal rendering of a signed value.
pub fn i32_to_string(w: i32) -> (r: String)
    ensures
        r@ == int_dec_chars(w as int),
{
    if w >= 0 {
        let r: String = u32_to_string(w as u32);
        r
    } else {
        let mag: i64 = -(w as i64);
        let r: String = String::from_str("-").concat(u32_to_string(mag as u32).as_str());
        proof {
            reveal_strlit("-");
            assert(r@ =~= int_dec_chars(w as int));
        }
        r
    }
}

} // verus!
