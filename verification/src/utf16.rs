//! UTF-8 code-point reading and the length-prefixed UTF-16 encoding the host
//! uses for text payloads.
//!
//! The reader is deliberately lenient: it assumes well-formed UTF-8 and
//! fills missing continuation bytes with zero rather than validating.
use vstd::prelude::*;

verus! {

/// The low six bits of a continuation byte.
pub const CONT_MASK: u8 = 0x3f;

pub open spec fn spec_utf8_first_byte(byte: u8, width: u32) -> u32 {
    (byte & (0x7fu8 >> width)) as u32
}

pub open spec fn spec_utf8_acc_cont_byte(ch: u32, byte: u8) -> u32 {
    (ch << 6) | ((byte & CONT_MASK) as u32)
}

/// The payload bits of the first byte of a code point of the given width.
pub fn utf8_first_byte(byte: u8, width: u32) -> (r: u32)
    requires
        width < 8,
    ensures
        r == spec_utf8_first_byte(byte, width),
{
    (byte & (0x7f >> width)) as u32
}

/// Accumulates the payload bits of a continuation byte.
pub fn utf8_acc_cont_byte(ch: u32, byte: u8) -> (r: u32)
    ensures
        r == spec_utf8_acc_cont_byte(ch, byte),
{
    (ch << 6) | ((byte & CONT_MASK) as u32)
}

/// The byte at `i`, or zero when `i` is out of bounds.
pub open spec fn spec_get_or_zero(bytes: Seq<u8>, i: int) -> u8 {
    if 0 <= i < bytes.len() {
        bytes[i]
    } else {
        0
    }
}

/// The code point starting at `start` and the count of bytes it was read
/// from, or nothing at the end of the buffer.
pub open spec fn spec_next_code_point(bytes: Seq<u8>, start: int) -> Option<(u32, int)> {
    if start >= bytes.len() {
        None
    } else {
        let x = bytes[start];
        if x < 128 {
            Some((x as u32, 1int))
        } else {
            let init = spec_utf8_first_byte(x, 2);
            let y = spec_get_or_zero(bytes, start + 1);
            let n2: int = if y != 0 {
                2
            } else {
                1
            };
            let ch2 = spec_utf8_acc_cont_byte(init, y);
            if x >= 0xe0 {
                let z = spec_get_or_zero(bytes, start + 2);
                let n3: int = if z != 0 {
                    n2 + 1
                } else {
                    n2
                };
                let y_z = spec_utf8_acc_cont_byte((y & CONT_MASK) as u32, z);
                let ch3 = (init << 12) | y_z;
                if x >= 0xf0 {
                    let w = spec_get_or_zero(bytes, start + 3);
                    let n4: int = if w != 0 {
                        n3 + 1
                    } else {
                        n3
                    };
                    Some((((init & 7) << 18) | spec_utf8_acc_cont_byte(y_z, w), n4))
                } else {
                    Some((ch3, n3))
                }
            } else {
                Some((ch2, n2))
            }
        }
    }
}

/// Reads the code point starting at `start`, assuming well-formed UTF-8.
pub fn next_code_point(bytes: &[u8], start: usize) -> (r: Option<(u32, usize)>)
    requires
        start <= bytes@.len(),
    ensures
        match r {
            Some((cp, n)) => Some((cp, n as int)) == spec_next_code_point(bytes@, start as int)
                && 1 <= n && start + n <= bytes@.len(),
            None => spec_next_code_point(bytes@, start as int) is None,
        },
{
    let len: usize = bytes.len();
    if len == start {
        return None;
    }
    let mut num_bytes: usize = 1;
    let x: u8 = bytes[start];
    if x < 128 {
        return Some((x as u32, num_bytes));
    }
    let init: u32 = utf8_first_byte(x, 2);
    let y: u8 = if len - start > 1 {
        bytes[start + 1]
    } else {
        0
    };
    if y != 0 {
        num_bytes = num_bytes + 1;
    }
    let mut ch: u32 = utf8_acc_cont_byte(init, y);
    if x >= 0xe0 {
        let z: u8 = if len - start > 2 {
            bytes[start + 2]
        } else {
            0
        };
        if z != 0 {
            num_bytes = num_bytes + 1;
        }
        let y_z: u32 = utf8_acc_cont_byte((y & CONT_MASK) as u32, z);
        ch = (init << 12) | y_z;
        if x >= 0xf0 {
            let w: u8 = if len - start > 3 {
                bytes[start + 3]
            } else {
                0
            };
            if w != 0 {
                num_bytes = num_bytes + 1;
            }
            ch = ((init & 7) << 18) | utf8_acc_cont_byte(y_z, w);
        }
    }
    Some((ch, num_bytes))
}

/// Walks the code points of a UTF-8 buffer.
pub struct CodePointIterator<'a> {
    pub buffer: &'a [u8],
    pub offset: usize,
}

impl<'a> CodePointIterator<'a> {
    pub fn new(buffer: &'a [u8]) -> (r: Self)
        ensures
            r.buffer@ == buffer@,
            r.offset == 0,
    {
        Self::new_with_offset(buffer, 0)
    }

    pub fn new_with_offset(buffer: &'a [u8], offset: usize) -> (r: Self)
        ensures
            r.buffer@ == buffer@,
            r.offset == offset,
    {
        Self { buffer, offset }
    }

    /// Yields the iterator advanced past the next code point, and that code
    /// point, or nothing at the end of the buffer.
    pub fn next(self) -> (r: Option<(Self, u32)>)
        requires
            self.offset <= self.buffer@.len(),
        ensures
            match r {
                Some((it, cp)) => {
                    &&& spec_next_code_point(self.buffer@, self.offset as int) matches Some(
                        (scp, n),
                    ) && scp == cp && it.offset == self.offset + n
                    &&& it.buffer@ == self.buffer@
                    &&& self.offset < it.offset <= self.buffer@.len()
                },
                None => spec_next_code_point(self.buffer@, self.offset as int) is None,
            },
    {
        let len: usize = self.buffer.len();
        if let Some((codepoint, num_utf8_bytes)) = next_code_point(self.buffer, self.offset) {
            proof {
                assert(self.offset + num_utf8_bytes <= len);
            }
            Some((Self::new_with_offset(self.buffer, self.offset + num_utf8_bytes), codepoint))
        } else {
            None
        }
    }
}

/// The UTF-16 unit or surrogate pair that encodes one code point, split as
/// the host's text buffers carry it: one unit for values that fit, a pair
/// for the supplementary planes.
pub open spec fn spec_utf16_units_of_cp(cp: u32) -> Seq<u16> {
    if cp & 0xffff == cp {
        seq![cp as u16]
    } else {
        seq![
            0xd800u16 | (((((cp - 0x10000) as u32)) >> 10) as u16),
            0xdc00u16 | ((cp as u16) & 0x3ff),
        ]
    }
}

/// The code points of a UTF-8 buffer from `start` on.
pub open spec fn spec_code_points(bytes: Seq<u8>, start: int) -> Seq<u32>
    decreases bytes.len() - start,
{
    if start < 0 || start >= bytes.len() {
        Seq::empty()
    } else {
        match spec_next_code_point(bytes, start) {
            Some((cp, n)) => seq![cp] + spec_code_points(bytes, start + n),
            None => Seq::empty(),
        }
    }
}

/// The UTF-16 units of a sequence of code points.
pub open spec fn spec_utf16_of_cps(cps: Seq<u32>) -> Seq<u16>
    decreases cps.len(),
{
    if cps.len() == 0 {
        Seq::empty()
    } else {
        spec_utf16_units_of_cp(cps[0]) + spec_utf16_of_cps(cps.skip(1))
    }
}

/// The UTF-16 units that encode a UTF-8 buffer.
pub open spec fn spec_utf16_of_utf8(bytes: Seq<u8>) -> Seq<u16> {
    spec_utf16_of_cps(spec_code_points(bytes, 0))
}

/// The well-formed length-prefixed host text buffer holding `units`.
pub open spec fn spec_prefixed(units: Seq<u16>) -> Seq<u16> {
    seq![units.len() as u16] + units
}

/// A buffer is a well-formed host text payload: its first unit counts the
/// rest, and the count stays within the host's limit.
pub open spec fn spec_prefixed_wf(buf: Seq<u16>) -> bool {
    &&& 1 <= buf.len() <= 32768
    &&& buf[0] == (buf.len() - 1) as u16
}

/// Encodes a UTF-8 buffer as a length-prefixed UTF-16 host text payload.
/// Yields nothing when the text needs more than 32767 units.
pub fn encode_utf16_prefixed(bytes: &[u8]) -> (r: Option<Vec<u16>>)
    ensures
        match r {
            Some(v) => spec_utf16_of_utf8(bytes@).len() <= 32767 && v@ == spec_prefixed(
                spec_utf16_of_utf8(bytes@),
            ) && spec_prefixed_wf(v@),
            None => spec_utf16_of_utf8(bytes@).len() > 32767,
        },
{
    let mut units: Vec<u16> = Vec::new();
    let mut offset: usize = 0;
    let len: usize = bytes.len();
    proof {
        assert(units@ + spec_utf16_of_cps(spec_code_points(bytes@, 0)) =~= spec_utf16_of_cps(
            spec_code_points(bytes@, 0),
        ));
    }
    while offset < len
        invariant
            offset <= len,
            len == bytes@.len(),
            spec_utf16_of_utf8(bytes@) == units@ + spec_utf16_of_cps(
                spec_code_points(bytes@, offset as int),
            ),
        decreases len - offset,
    {
        let r = next_code_point(bytes, offset);
        match r {
            Some((cp, n)) => {
                proof {
                    assert(spec_code_points(bytes@, offset as int) == seq![cp]
                        + spec_code_points(bytes@, offset + n));
                }
                if cp & 0xffff == cp {
                    units.push(#[verifier::truncate] (cp as u16));
                } else {
                    assert(cp >= 0x10000) by (bit_vector)
                        requires
                            !(cp & 0xffff == cp),
                    ;
                    units.push(0xd800u16 | (#[verifier::truncate] (((cp - 0x10000) >> 10) as u16)));
                    units.push(0xdc00u16 | ((#[verifier::truncate] (cp as u16)) & 0x3ff));
                }
                proof {
                    assert(spec_utf16_of_cps(seq![cp] + spec_code_points(bytes@, offset + n))
                        =~= spec_utf16_units_of_cp(cp) + spec_utf16_of_cps(
                        spec_code_points(bytes@, offset + n),
                    )) by {
                        let cps = seq![cp] + spec_code_points(bytes@, offset + n);
                        assert(cps[0] == cp);
                        assert(cps.skip(1) =~= spec_code_points(bytes@, offset + n));
                    }
                    assert(units@ + spec_utf16_of_cps(spec_code_points(bytes@, offset + n))
                        =~= spec_utf16_of_utf8(bytes@));
                }
                offset = offset + n;
            },
            None => {
                proof {
                    assert(false);
                }
            },
        }
    }
    proof {
        assert(spec_code_points(bytes@, offset as int) =~= Seq::<u32>::empty());
        assert(spec_utf16_of_utf8(bytes@) =~= units@);
    }
    if units.len() > 32767 {
        return None;
    }
    let count: u16 = units.len() as u16;
    let mut out: Vec<u16> = Vec::new();
    out.push(count);
    let mut i: usize = 0;
    while i < units.len()
        invariant
            i <= units@.len(),
            units@.len() <= 32767,
            out@ == seq![units@.len() as u16] + units@.take(i as int),
        decreases units@.len() - i,
    {
        out.push(units[i]);
        proof {
            assert(out@ =~= seq![units@.len() as u16] + units@.take(i + 1));
        }
        i = i + 1;
    }
    proof {
        assert(units@.take(units@.len() as int) =~= units@);
        assert(out@ =~= spec_prefixed(units@));
    }
    Some(out)
}

/// A UTF-16 unit sequence is well paired: every high surrogate is followed
/// by a low surrogate, and no low surrogate stands alone.
pub open spec fn spec_utf16_valid(units: Seq<u16>) -> bool
    decreases units.len(),
{
    if units.len() == 0 {
        true
    } else if 0xd800 <= units[0] < 0xdc00 {
        units.len() >= 2 && 0xdc00 <= units[1] < 0xe000 && spec_utf16_valid(units.skip(2))
    } else if 0xdc00 <= units[0] < 0xe000 {
        false
    } else {
        spec_utf16_valid(units.skip(1))
    }
}

/// The scalar values a well-paired UTF-16 unit sequence encodes.
pub open spec fn spec_utf16_scalars(units: Seq<u16>) -> Seq<u32>
    decreases units.len(),
{
    if units.len() == 0 {
        Seq::empty()
    } else if 0xd800 <= units[0] < 0xdc00 && units.len() >= 2 && 0xdc00 <= units[1] < 0xe000 {
        seq![(0x10000 + (((units[0] - 0xd800) as u32) << 10) + ((units[1] - 0xdc00) as u32)) as u32]
            + spec_utf16_scalars(units.skip(2))
    } else {
        seq![units[0] as u32] + spec_utf16_scalars(units.skip(1))
    }
}

/// Relies on `String::from_utf16`: decoding succeeds exactly on well-paired
/// unit sequences, and the characters of the result carry the scalar values
/// the units encode. A failure is reported with the library error's text.
#[verifier::external_body]
pub(crate) fn utf16_to_string(units: &[u16]) -> (r: Result<String, String>)
    ensures
        r is Ok <==> spec_utf16_valid(units@),
        r matches Ok(s) ==> s@.map(|i: int, c: char| c as u32) == spec_utf16_scalars(units@),
{
    match String::from_utf16(units) {
        Ok(s) => Ok(s),
        Err(e) => Err(e.to_string()),
    }
}

} // verus!
