//! The decision core of the two host entry points: the coercion-selector
//! grammar of the `set` call, the conversion it applies, and the small
//! argument/outcome rules of the streaming `get` call.
//!
//! The host-call boundary itself (argument pointers, the callback into the
//! host) lives in the unverified rim; everything here works on plain values.
use crate::bus::BusValue;
use crate::conv;
use crate::conv::{TextValue, ToStringError};
use crate::ieee;
use crate::text;
use crate::xloper12::{XLOper12, XLType, XlErr, XlVal};
use vstd::prelude::*;
use vstd::string::StringSliceAdditionalSpecFns;

verus! {

/// The recognized coercion selectors of the `set` entry point.
#[derive(Clone, Copy, Debug, PartialEq, Eq, Structural)]
pub enum NetSetType {
    /// Infer the bus value from the host value's own kind.
    Auto,
    F64,
    I64,
    Null,
    /// Apply the serial-day epoch rule and publish an instant.
    Time,
    /// The `string` selector.
    Text,
    Bool,
}

/// What the selector grammar accepts: a missing selector and the empty
/// string mean `auto`; any other unlisted text is an error.
pub open spec fn spec_parse_selector(ty: Option<Seq<char>>) -> Option<NetSetType> {
    match ty {
        None => Some(NetSetType::Auto),
        Some(s) => if s == Seq::<char>::empty() || s == "auto"@ {
            Some(NetSetType::Auto)
        } else if s == "f64"@ {
            Some(NetSetType::F64)
        } else if s == "i64"@ {
            Some(NetSetType::I64)
        } else if s == "null"@ {
            Some(NetSetType::Null)
        } else if s == "time"@ {
            Some(NetSetType::Time)
        } else if s == "string"@ {
            Some(NetSetType::Text)
        } else if s == "bool"@ {
            Some(NetSetType::Bool)
        } else {
            None
        },
    }
}

fn str_eq(a: &str, b: &str) -> (r: bool)
    ensures
        r == (a@ == b@),
{
    String::from_str(a).eq(&String::from_str(b))
}

/// Parses a coercion selector; yields nothing on unrecognized text.
pub fn parse_selector(ty: Option<&str>) -> (r: Option<NetSetType>)
    ensures
        r == spec_parse_selector(
            match ty {
                Some(s) => Some(s@),
                None => None,
            },
        ),
{
    match ty {
        None => Some(NetSetType::Auto),
        Some(s) => {
            if s.is_empty() {
                proof {
                    assert(s@ =~= Seq::<char>::empty());
                }
                Some(NetSetType::Auto)
            } else if str_eq(s, "auto") {
                Some(NetSetType::Auto)
            } else if str_eq(s, "f64") {
                Some(NetSetType::F64)
            } else if str_eq(s, "i64") {
                Some(NetSetType::I64)
            } else if str_eq(s, "null") {
                Some(NetSetType::Null)
            } else if str_eq(s, "time") {
                Some(NetSetType::Time)
            } else if str_eq(s, "string") {
                Some(NetSetType::Text)
            } else if str_eq(s, "bool") {
                Some(NetSetType::Bool)
            } else {
                None
            }
        },
    }
}

/// A conversion's outcome. Two steps cannot finish inside the verified
/// core, because they need the machine's floating-point rim: rendering a
/// number as decimal text, and splitting a serial's fractional day into
/// milliseconds. Those hand back the number's bits for the rim to finish.
#[derive(Debug, PartialEq)]
pub enum SetOutcome {
    /// The bus value is ready to publish.
    Ready(BusValue),
    /// Publish the decimal rendering of this binary64 pattern as text.
    NeedNumText(u64),
    /// Feed these serial bits, with their fractional-day milliseconds, to
    /// the serial-to-instant conversion.
    NeedSerialMs(u64),
}

/// The text of a failed text coercion, as published in the error cell.
pub open spec fn spec_tostring_error_text(e: ToStringError) -> Seq<char> {
    match e {
        ToStringError::Utf16Error(m) => m@,
        ToStringError::InvalidType(t) => "InvalidType("@ + spec_xltype_name(t) + ")"@,
    }
}

pub open spec fn spec_xltype_name(t: XLType) -> Seq<char> {
    match t {
        XLType::Num => "Num"@,
        XLType::Str => "Str"@,
        XLType::Bool => "Bool"@,
        XLType::Ref => "Ref"@,
        XLType::Error => "Err"@,
        XLType::Flow => "Flow"@,
        XLType::Multi => "Multi"@,
        XLType::Missing => "Missing"@,
        XLType::Nil => "Nil"@,
        XLType::SRef => "SRef"@,
        XLType::Int => "Int"@,
        XLType::BigData => "BigData"@,
        XLType::Unknown(v) => "Unknown("@ + text::dec_chars(v as nat) + ")"@,
    }
}

/// The host type's name, matching the host's own tag naming.
pub fn xltype_name(t: XLType) -> (r: String)
    ensures
        r@ == spec_xltype_name(t),
{
    match t {
        XLType::Num => String::from_str("Num"),
        XLType::Str => String::from_str("Str"),
        XLType::Bool => String::from_str("Bool"),
        XLType::Ref => String::from_str("Ref"),
        XLType::Error => String::from_str("Err"),
        XLType::Flow => String::from_str("Flow"),
        XLType::Multi => String::from_str("Multi"),
        XLType::Missing => String::from_str("Missing"),
        XLType::Nil => String::from_str("Nil"),
        XLType::SRef => String::from_str("SRef"),
        XLType::Int => String::from_str("Int"),
        XLType::BigData => String::from_str("BigData"),
        XLType::Unknown(v) => String::from_str("Unknown(").concat(
            text::u32_to_string(v).as_str(),
        ).concat(")"),
    }
}

/// Renders a failed text coercion for the error cell.
pub fn tostring_error_text(e: &ToStringError) -> (r: String)
    ensures
        r@ == spec_tostring_error_text(*e),
{
    match e {
        ToStringError::Utf16Error(m) => m.clone(),
        ToStringError::InvalidType(t) => String::from_str("InvalidType(").concat(
            xltype_name(*t).as_str(),
        ).concat(")"),
    }
}

/// How a text extraction maps onto a conversion outcome.
pub open spec fn text_map_rel(tr: Result<TextValue, ToStringError>, r: SetOutcome) -> bool {
    match tr {
        Ok(TextValue::Ready(s)) => r matches SetOutcome::Ready(BusValue::Text(s2)) && s2@ == s@,
        Ok(TextValue::FromNum(b)) => r == SetOutcome::NeedNumText(b),
        Err(e) => r matches SetOutcome::Ready(BusValue::Error(s)) && s@ == spec_tostring_error_text(
            e,
        ),
    }
}

/// What each selector turns a host value into.
pub open spec fn convert_rel(t: NetSetType, v: XLOper12, r: SetOutcome) -> bool {
    match t {
        NetSetType::Auto => r matches SetOutcome::Ready(b) && conv::to_bus_rel(v, b),
        NetSetType::F64 => match conv::spec_to_f64_bits(v) {
            Some(b) => r == SetOutcome::Ready(BusValue::F64(b)),
            None => r matches SetOutcome::Ready(BusValue::Error(s)) && s@ == "#TYPE!"@,
        },
        NetSetType::I64 => match conv::spec_to_i64(v) {
            Some(w) => r == SetOutcome::Ready(BusValue::I64(w)),
            None => r matches SetOutcome::Ready(BusValue::Error(s)) && s@ == "#TYPE!"@,
        },
        NetSetType::Null => r == SetOutcome::Ready(BusValue::Null),
        NetSetType::Bool => match conv::spec_to_bool(v) {
            Some(b) => r == SetOutcome::Ready(BusValue::Bool(b)),
            None => r matches SetOutcome::Ready(BusValue::Error(s)) && s@ == "#TYPE!"@,
        },
        NetSetType::Text => exists|tr: Result<TextValue, ToStringError>|
            conv::to_text_rel(v, tr) && text_map_rel(tr, r),
        NetSetType::Time => match conv::spec_to_f64_bits(v) {
            Some(bits) => if ieee::spec_below_zero(bits) {
                r matches SetOutcome::Ready(BusValue::Error(s)) && s@ == "#VALUE!"@
            } else {
                r == SetOutcome::NeedSerialMs(bits)
            },
            None => r matches SetOutcome::Ready(BusValue::Error(s)) && s@ == "#TYPE!"@,
        },
    }
}

/// Applies a selector to a host value.
pub fn convert_for_set(t: NetSetType, v: &XLOper12) -> (r: SetOutcome)
    requires
        v.wf(),
    ensures
        convert_rel(t, *v, r),
{
    match t {
        NetSetType::Auto => SetOutcome::Ready(v.to_bus()),
        NetSetType::F64 => match v.to_f64_bits() {
            Ok(b) => SetOutcome::Ready(BusValue::F64(b)),
            Err(_) => SetOutcome::Ready(BusValue::Error(String::from_str("#TYPE!"))),
        },
        NetSetType::I64 => match v.to_i64() {
            Ok(w) => SetOutcome::Ready(BusValue::I64(w)),
            Err(_) => SetOutcome::Ready(BusValue::Error(String::from_str("#TYPE!"))),
        },
        NetSetType::Null => SetOutcome::Ready(BusValue::Null),
        NetSetType::Bool => match v.to_bool() {
            Ok(b) => SetOutcome::Ready(BusValue::Bool(b)),
            Err(_) => SetOutcome::Ready(BusValue::Error(String::from_str("#TYPE!"))),
        },
        NetSetType::Text => {
            let tr = v.to_text();
            let ghost gtr = tr;
            let r = match tr {
                Ok(TextValue::Ready(s)) => SetOutcome::Ready(BusValue::Text(s)),
                Ok(TextValue::FromNum(b)) => SetOutcome::NeedNumText(b),
                Err(e) => SetOutcome::Ready(BusValue::Error(tostring_error_text(&e))),
            };
            proof {
                assert(conv::to_text_rel(*v, gtr) && text_map_rel(gtr, r));
            }
            r
        },
        NetSetType::Time => match v.to_f64_bits() {
            Ok(bits) => {
                if ieee::is_below_zero(bits) {
                    SetOutcome::Ready(BusValue::Error(String::from_str("#VALUE!")))
                } else {
                    SetOutcome::NeedSerialMs(bits)
                }
            },
            Err(_) => SetOutcome::Ready(BusValue::Error(String::from_str("#TYPE!"))),
        },
    }
}

/// Parses the selector and applies it: the whole decision of the `set`
/// entry point, short of the rim's two floating-point steps. Yields nothing
/// exactly on an unrecognized selector, which the rim surfaces as `#N/A`.
pub fn net_set_convert(selector: Option<&str>, value: &XLOper12) -> (r: Option<SetOutcome>)
    requires
        value.wf(),
    ensures
        spec_parse_selector(
            match selector {
                Some(s) => Some(s@),
                None => None,
            },
        ) is None ==> r is None,
        spec_parse_selector(
            match selector {
                Some(s) => Some(s@),
                None => None,
            },
        ) matches Some(t) ==> (r matches Some(o) && convert_rel(t, *value, o)),
{
    match parse_selector(selector) {
        None => None,
        Some(t) => Some(convert_for_set(t, value)),
    }
}

/// The arguments of the host's streaming-data call: the server class name,
/// the omitted refresh argument, and the topic path.
pub fn net_get_args(path: XLOper12) -> (r: Vec<XLOper12>)
    ensures
        r@.len() == 3,
        XLOper12::spec_from_utf8_rel("NetidxRTD".spec_bytes(), r@[0]),
        r@[1].val == XlVal::Missing,
        r@[2] == path,
{
    let mut args: Vec<XLOper12> = Vec::new();
    args.push(XLOper12::from_text("NetidxRTD"));
    args.push(XLOper12::missing());
    args.push(path);
    args
}

/// What the streaming-data entry point returns: on a zero host status the
/// host's own result, with the free obligation handed to the host; on any
/// other status the `#N/A` error cell.
pub fn net_get_outcome(rc: i32, res: XLOper12) -> (r: XLOper12)
    ensures
        rc == 0 ==> r.own == crate::xloper12::Ownership::Xl && r.val == res.val,
        rc != 0 ==> r == XLOper12::spec_na_error(),
{
    if rc == 0 {
        res.into_externally_owned()
    } else {
        XLOper12::error(XlErr::NA)
    }
}

/// The success sentinel of the `set` entry point: the `#SET` marker on
/// success, `#N/A` when the write could not be handed on.
pub fn net_set_result(sent: bool) -> (r: XLOper12)
    ensures
        sent ==> XLOper12::spec_from_utf8_rel("#SET".spec_bytes(), r),
        !sent ==> r == XLOper12::spec_na_error(),
{
    if sent {
        XLOper12::from_text("#SET")
    } else {
        XLOper12::error(XlErr::NA)
    }
}

} // verus!
