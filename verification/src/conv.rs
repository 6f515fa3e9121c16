//! Conversions out of the host's tagged values: the total mapping onto the
//! bus's value union, and the partial coercions to scalars.
//!
//! Array values always coerce through their top-left element, matching the
//! host's scalar-argument convention.
use crate::bus::BusValue;
use crate::ieee;
use crate::text;
use crate::utf16;
use crate::xloper12::{XLOper12, XLType, XlVal, XLERR_DIV0, XLERR_GETTING_DATA, XLERR_NA, XLERR_NAME,
    XLERR_NULL, XLERR_NUM, XLERR_REF, XLERR_VALUE};
use vstd::prelude::*;

verus! {

/// A scalar coercion failed: the host value's kind cannot be read as the
/// requested type.
#[derive(Clone, Copy, Debug, PartialEq, Eq, Structural)]
pub enum ConversionError {
    TypeMismatch,
}

/// Why a host value could not be turned into text.
#[derive(Debug, PartialEq)]
pub enum ToStringError {
    /// The string payload held an unpaired surrogate; carries the decoder's
    /// message.
    Utf16Error(String),
    /// The value's kind has no text reading.
    InvalidType(XLType),
}

/// Text extracted from a host value. A numeric cell's text needs the
/// platform's decimal formatter, which only the unverified rim provides, so
/// it is handed out as the raw bit pattern instead of a rendered string.
#[derive(Debug, PartialEq)]
pub enum TextValue {
    Ready(String),
    FromNum(u64),
}

/// The text of a host error code: the eight named markers, and `#ERR` with
/// the code appended for the rest.
pub open spec fn spec_xlerr_text(code: i32) -> Seq<char> {
    let c = code as u32;
    if c == XLERR_NULL {
        "#NULL!"@
    } else if c == XLERR_DIV0 {
        "#DIV/0!"@
    } else if c == XLERR_VALUE {
        "#VALUE!"@
    } else if c == XLERR_REF {
        "#REF!"@
    } else if c == XLERR_NAME {
        "#NAME?"@
    } else if c == XLERR_NUM {
        "#NUM!"@
    } else if c == XLERR_NA {
        "#N/A"@
    } else if c == XLERR_GETTING_DATA {
        "#GETTING_DATA"@
    } else {
        "#ERR"@ + text::dec_chars(c as nat)
    }
}

/// Renders a host error code as its marker text.
pub fn xlerr_text(code: i32) -> (r: String)
    ensures
        r@ == spec_xlerr_text(code),
{
    let c: u32 = code as u32;
    if c == XLERR_NULL {
        String::from_str("#NULL!")
    } else if c == XLERR_DIV0 {
        String::from_str("#DIV/0!")
    } else if c == XLERR_VALUE {
        String::from_str("#VALUE!")
    } else if c == XLERR_REF {
        String::from_str("#REF!")
    } else if c == XLERR_NAME {
        String::from_str("#NAME?")
    } else if c == XLERR_NUM {
        String::from_str("#NUM!")
    } else if c == XLERR_NA {
        String::from_str("#N/A")
    } else if c == XLERR_GETTING_DATA {
        String::from_str("#GETTING_DATA")
    } else {
        String::from_str("#ERR").concat(text::u32_to_string(c).as_str())
    }
}

/// How a host value maps onto the bus union. The mapping is total: every
/// kind lands somewhere, the unsupported ones as error markers. A string
/// payload with unpaired surrogates gives an error carrying the decoder's
/// message, which is all this relation pins about it.
pub open spec fn to_bus_rel(v: XLOper12, r: BusValue) -> bool
    decreases v,
{
    match v.val {
        XlVal::Missing => r == BusValue::Null,
        XlVal::Nil => r == BusValue::Null,
        XlVal::Num(b) => r == BusValue::F64(b),
        XlVal::Int(w) => r == BusValue::I64(w as i64),
        XlVal::Bool(x) => r == BusValue::Bool(x != 0),
        XlVal::Str(buf) => if utf16::spec_utf16_valid(buf@.skip(1)) {
            r matches BusValue::Text(s) && s@.map(|i: int, c: char| c as u32)
                == utf16::spec_utf16_scalars(buf@.skip(1))
        } else {
            r matches BusValue::Error(_)
        },
        XlVal::Error(c) => r matches BusValue::Error(s) && s@ == spec_xlerr_text(c),
        XlVal::Multi(m) => m.elems.len() > 0 && to_bus_rel(m.elems[0], r),
        XlVal::Ref => r matches BusValue::Error(s) && s@ == "#UNSUPPORTED_REF"@,
        XlVal::Flow => r matches BusValue::Error(s) && s@ == "#UNSUPPORTED_FLOW"@,
        XlVal::SRef(_) => r matches BusValue::Error(s) && s@ == "#UNSUPPORTED_SREF"@,
        XlVal::BigData => r matches BusValue::Error(s) && s@ == "#UNSUPPORTED_BIGDATA"@,
        XlVal::Unknown(t) => r matches BusValue::Error(s) && s@ == "#UNKNOWN"@ + text::dec_chars(
            t as nat,
        ),
    }
}

/// The scalar bits a host value coerces to as a number, if any.
pub open spec fn spec_to_f64_bits(v: XLOper12) -> Option<u64>
    decreases v,
{
    match v.val {
        XlVal::Num(b) => Some(b),
        XlVal::Int(w) => Some(ieee::spec_bits_of_i32(w as int)),
        XlVal::Bool(x) => Some(
            if x == 1 {
                ieee::ONE_BITS
            } else {
                0u64
            },
        ),
        XlVal::Multi(m) => if m.elems.len() > 0 {
            spec_to_f64_bits(m.elems[0])
        } else {
            None
        },
        _ => None,
    }
}

/// The integer a host value coerces to, if any.
pub open spec fn spec_to_i64(v: XLOper12) -> Option<i64>
    decreases v,
{
    match v.val {
        XlVal::Num(b) => Some(ieee::spec_trunc_i64(b)),
        XlVal::Int(w) => Some(w as i64),
        XlVal::Bool(x) => Some(
            if x == 1 {
                1i64
            } else {
                0i64
            },
        ),
        XlVal::Multi(m) => if m.elems.len() > 0 {
            spec_to_i64(m.elems[0])
        } else {
            None
        },
        _ => None,
    }
}

/// The boolean a host value coerces to, if any.
pub open spec fn spec_to_bool(v: XLOper12) -> Option<bool>
    decreases v,
{
    match v.val {
        XlVal::Num(b) => Some(ieee::spec_nonzero(b)),
        XlVal::Int(w) => Some(w != 0),
        XlVal::Bool(x) => Some(x != 0),
        XlVal::Multi(m) => if m.elems.len() > 0 {
            spec_to_bool(m.elems[0])
        } else {
            None
        },
        _ => None,
    }
}

/// How a host value reads as text.
pub open spec fn to_text_rel(v: XLOper12, r: Result<TextValue, ToStringError>) -> bool
    decreases v,
{
    match v.val {
        XlVal::Num(b) => r matches Ok(TextValue::FromNum(bb)) && bb == b,
        XlVal::Int(w) => r matches Ok(TextValue::Ready(s)) && s@ == text::int_dec_chars(w as int),
        XlVal::Bool(x) => r matches Ok(TextValue::Ready(s)) && s@ == (if x == 1 {
            "true"@
        } else {
            "false"@
        }),
        XlVal::Str(buf) => if utf16::spec_utf16_valid(buf@.skip(1)) {
            r matches Ok(TextValue::Ready(s)) && s@.map(|i: int, c: char| c as u32)
                == utf16::spec_utf16_scalars(buf@.skip(1))
        } else {
            r matches Err(ToStringError::Utf16Error(_))
        },
        XlVal::Multi(m) => m.elems.len() > 0 && to_text_rel(m.elems[0], r),
        _ => r matches Err(ToStringError::InvalidType(t)) && t == v.spec_xltype(),
    }
}

impl XLOper12 {
    /// The bus value this host value maps to; total over well-formed values.
    pub fn to_bus(&self) -> (r: BusValue)
        requires
            self.wf(),
        ensures
            to_bus_rel(*self, r),
        decreases *self,
    {
        match &self.val {
            XlVal::Missing => BusValue::Null,
            XlVal::Nil => BusValue::Null,
            XlVal::Num(b) => BusValue::F64(*b),
            XlVal::Int(w) => BusValue::I64(*w as i64),
            XlVal::Bool(x) => BusValue::Bool(*x != 0),
            XlVal::Str(buf) => {
                let content: &[u16] = buf.as_slice().split_at(1).1;
                proof {
                    assert(content@ =~= buf@.skip(1));
                }
                match utf16::utf16_to_string(content) {
                    Ok(s) => BusValue::Text(s),
                    Err(e) => BusValue::Error(e),
                }
            },
            XlVal::Error(c) => BusValue::Error(xlerr_text(*c)),
            XlVal::Multi(m) => {
                proof {
                    crate::xloper12::lemma_multi_nonempty(*self);
                }
                m.elems[0].to_bus()
            },
            XlVal::Ref => BusValue::Error(String::from_str("#UNSUPPORTED_REF")),
            XlVal::Flow => BusValue::Error(String::from_str("#UNSUPPORTED_FLOW")),
            XlVal::SRef(_) => BusValue::Error(String::from_str("#UNSUPPORTED_SREF")),
            XlVal::BigData => BusValue::Error(String::from_str("#UNSUPPORTED_BIGDATA")),
            XlVal::Unknown(t) => BusValue::Error(
                String::from_str("#UNKNOWN").concat(text::u32_to_string(*t).as_str()),
            ),
        }
    }

    /// Coerces to a number, handed out as its binary64 bit pattern.
    pub fn to_f64_bits(&self) -> (r: Result<u64, ConversionError>)
        requires
            self.wf(),
        ensures
            spec_to_f64_bits(*self) matches Some(b) ==> r == Ok::<u64, ConversionError>(b),
            spec_to_f64_bits(*self) is None ==> r == Err::<u64, ConversionError>(
                ConversionError::TypeMismatch,
            ),
        decreases *self,
    {
        match &self.val {
            XlVal::Num(b) => Ok(*b),
            XlVal::Int(w) => Ok(ieee::bits_of_i32(*w)),
            XlVal::Bool(x) => Ok(
                if *x == 1 {
                    ieee::ONE_BITS
                } else {
                    0u64
                },
            ),
            XlVal::Multi(m) => {
                proof {
                    crate::xloper12::lemma_multi_nonempty(*self);
                }
                m.elems[0].to_f64_bits()
            },
            _ => Err(ConversionError::TypeMismatch),
        }
    }

    /// Coerces to a signed 64-bit integer, truncating numeric cells.
    pub fn to_i64(&self) -> (r: Result<i64, ConversionError>)
        requires
            self.wf(),
        ensures
            spec_to_i64(*self) matches Some(w) ==> r == Ok::<i64, ConversionError>(w),
            spec_to_i64(*self) is None ==> r == Err::<i64, ConversionError>(
                ConversionError::TypeMismatch,
            ),
        decreases *self,
    {
        match &self.val {
            XlVal::Num(b) => Ok(ieee::trunc_i64(*b)),
            XlVal::Int(w) => Ok(*w as i64),
            XlVal::Bool(x) => Ok(
                if *x == 1 {
                    1i64
                } else {
                    0i64
                },
            ),
            XlVal::Multi(m) => {
                proof {
                    crate::xloper12::lemma_multi_nonempty(*self);
                }
                m.elems[0].to_i64()
            },
            _ => Err(ConversionError::TypeMismatch),
        }
    }

    /// Coerces to a boolean: numbers and integers read as "not zero".
    pub fn to_bool(&self) -> (r: Result<bool, ConversionError>)
        requires
            self.wf(),
        ensures
            spec_to_bool(*self) matches Some(b) ==> r == Ok::<bool, ConversionError>(b),
            spec_to_bool(*self) is None ==> r == Err::<bool, ConversionError>(
                ConversionError::TypeMismatch,
            ),
        decreases *self,
    {
        match &self.val {
            XlVal::Num(b) => Ok(ieee::is_nonzero(*b)),
            XlVal::Int(w) => Ok(*w != 0),
            XlVal::Bool(x) => Ok(*x != 0),
            XlVal::Multi(m) => {
                proof {
                    crate::xloper12::lemma_multi_nonempty(*self);
                }
                m.elems[0].to_bool()
            },
            _ => Err(ConversionError::TypeMismatch),
        }
    }

    /// Reads the value as text, except that a numeric cell's rendering is
    /// handed back as bits (see `TextValue`).
    pub fn to_text(&self) -> (r: Result<TextValue, ToStringError>)
        requires
            self.wf(),
        ensures
            to_text_rel(*self, r),
        decreases *self,
    {
        match &self.val {
            XlVal::Num(b) => Ok(TextValue::FromNum(*b)),
            XlVal::Int(w) => Ok(TextValue::Ready(text::i32_to_string(*w))),
            XlVal::Bool(x) => Ok(
                TextValue::Ready(
                    if *x == 1 {
                        String::from_str("true")
                    } else {
                        String::from_str("false")
                    },
                ),
            ),
            XlVal::Str(buf) => {
                let content: &[u16] = buf.as_slice().split_at(1).1;
                proof {
                    assert(content@ =~= buf@.skip(1));
                }
                match utf16::utf16_to_string(content) {
                    Ok(s) => Ok(TextValue::Ready(s)),
                    Err(e) => Err(ToStringError::Utf16Error(e)),
                }
            },
            XlVal::Multi(m) => {
                proof {
                    crate::xloper12::lemma_multi_nonempty(*self);
                }
                m.elems[0].to_text()
            },
            _ => Err(ToStringError::InvalidType(self.xltype())),
        }
    }
}

/// What the display rendering of a host value is, branch by branch. The
/// numeric cell again needs the rim's decimal formatter and is handed out
/// as bits; arrays render as a marker, not element by element.
pub open spec fn display_rel(v: XLOper12, r: TextValue) -> bool {
    match v.val {
        XlVal::Error(c) => r matches TextValue::Ready(s) && s@ == spec_xlerr_text(c),
        XlVal::Int(w) => r matches TextValue::Ready(s) && s@ == text::int_dec_chars(w as int),
        XlVal::Missing => r matches TextValue::Ready(s) && s@ == "#MISSING"@,
        XlVal::Multi(_) => r matches TextValue::Ready(s) && s@ == "#MULTI"@,
        XlVal::Nil => r matches TextValue::Ready(s) && s@ == "#NIL"@,
        XlVal::Num(b) => r == TextValue::FromNum(b),
        XlVal::Bool(x) => r matches TextValue::Ready(s) && s@ == (if x != 0 {
            "true"@
        } else {
            "false"@
        }),
        XlVal::Str(buf) => if utf16::spec_utf16_valid(buf@.skip(1)) {
            r matches TextValue::Ready(s) && s@.map(|i: int, c: char| c as u32)
                == utf16::spec_utf16_scalars(buf@.skip(1))
        } else {
            r matches TextValue::Ready(s) && s@ == "#STRING_ERR"@
        },
        XlVal::SRef(c) => r matches TextValue::Ready(s) && s@ == "Sref:("@ + text::int_dec_chars(
            c.rw_first as int,
        ) + ","@ + text::int_dec_chars(c.col_first as int) + ") -> ("@ + text::int_dec_chars(
            c.rw_last as int,
        ) + ","@ + text::int_dec_chars(c.col_last as int) + ")"@,
        XlVal::Ref => r matches TextValue::Ready(s) && s@ == "#REF"@,
        XlVal::Flow => r matches TextValue::Ready(s) && s@ == "#FLOW"@,
        XlVal::BigData => r matches TextValue::Ready(s) && s@ == "#BIG_DATA"@,
        XlVal::Unknown(t) => r matches TextValue::Ready(s) && s@ == "#UNKNOWN"@ + text::dec_chars(
            t as nat,
        ),
    }
}

impl XLOper12 {
    /// Renders the value for humans (logs, registration failure reports).
    /// A numeric cell is handed out as bits for the rim's formatter.
    pub fn display_text(&self) -> (r: TextValue)
        requires
            self.wf(),
        ensures
            display_rel(*self, r),
    {
        match &self.val {
            XlVal::Error(c) => TextValue::Ready(xlerr_text(*c)),
            XlVal::Int(w) => TextValue::Ready(text::i32_to_string(*w)),
            XlVal::Missing => TextValue::Ready(String::from_str("#MISSING")),
            XlVal::Multi(_) => TextValue::Ready(String::from_str("#MULTI")),
            XlVal::Nil => TextValue::Ready(String::from_str("#NIL")),
            XlVal::Num(b) => TextValue::FromNum(*b),
            XlVal::Bool(x) => TextValue::Ready(
                if *x != 0 {
                    String::from_str("true")
                } else {
                    String::from_str("false")
                },
            ),
            XlVal::Str(buf) => {
                let content: &[u16] = buf.as_slice().split_at(1).1;
                proof {
                    assert(content@ =~= buf@.skip(1));
                }
                match utf16::utf16_to_string(content) {
                    Ok(s) => TextValue::Ready(s),
                    Err(_) => TextValue::Ready(String::from_str("#STRING_ERR")),
                }
            },
            XlVal::SRef(c) => TextValue::Ready(
                String::from_str("Sref:(").concat(text::i32_to_string(c.rw_first).as_str()).concat(
                    ",",
                ).concat(text::i32_to_string(c.col_first).as_str()).concat(") -> (").concat(
                    text::i32_to_string(c.rw_last).as_str(),
                ).concat(",").concat(text::i32_to_string(c.col_last).as_str()).concat(")"),
            ),
            XlVal::Ref => TextValue::Ready(String::from_str("#REF")),
            XlVal::Flow => TextValue::Ready(String::from_str("#FLOW")),
            XlVal::BigData => TextValue::Ready(String::from_str("#BIG_DATA")),
            XlVal::Unknown(t) => TextValue::Ready(
                String::from_str("#UNKNOWN").concat(text::u32_to_string(*t).as_str()),
            ),
        }
    }
}

/// Numeric round trip: a finite binary64 pattern entering as a host cell
/// (as `XLOper12::from_f64_bits` builds it) reaches the bus as a numeric
/// value with exactly the same pattern; NaN and the infinities never form a
/// numeric cell — they enter as the host's `#N/A` error cell instead.
pub proof fn lemma_num_round_trip(bits: u64, v: XLOper12, r: BusValue)
    requires
        !ieee::spec_nan_or_inf(bits) ==> v.val == XlVal::Num(bits),
        ieee::spec_nan_or_inf(bits) ==> v == XLOper12::spec_na_error(),
        to_bus_rel(v, r),
    ensures
        !ieee::spec_nan_or_inf(bits) ==> r == BusValue::F64(bits),
        ieee::spec_nan_or_inf(bits) ==> v.spec_xltype() == XLType::Error,
{
}

} // verus!
