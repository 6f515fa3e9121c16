//! Registration of a user-defined function with the host: the argument
//! list the registration call takes, and the judgment of its outcome. The
//! host call itself is the rim's.
use crate::xloper12::{XLOper12, XlVal, XLERR_VALUE};
use vstd::prelude::*;
use vstd::string::StringSliceAdditionalSpecFns;

verus! {

/// The host's callback numbers this bridge uses.
#[derive(Clone, Copy, Debug, PartialEq, Eq, Structural)]
pub enum Xlfn {
    Caller,
    GetName,
    Rtd,
    Register,
    AsyncReturn,
}

impl Xlfn {
    pub open spec fn spec_code(self) -> u32 {
        match self {
            Xlfn::Caller => 89,
            Xlfn::GetName => 0x4009,
            Xlfn::Rtd => 379,
            Xlfn::Register => 149,
            Xlfn::AsyncReturn => 0x400e,
        }
    }

    /// The host's numeric code for this callback.
    pub fn code(self) -> (r: u32)
        ensures
            r == self.spec_code(),
    {
        match self {
            Xlfn::Caller => 89,
            Xlfn::GetName => 0x4009,
            Xlfn::Rtd => 379,
            Xlfn::Register => 149,
            Xlfn::AsyncReturn => 0x400e,
        }
    }
}

/// An exported function to register with the host, under a worksheet name.
#[derive(Debug)]
pub struct Udf {
    pub name: String,
    pub exported_function: String,
}

impl Udf {
    /// Builds the registration call's argument list: the module name the
    /// host reported, the export and worksheet names, the argument-type
    /// signature, the argument text, the worksheet-function marker, the
    /// category, two omitted arguments, the help text, and one text cell
    /// per argument help entry. The rim hands this list to the host's
    /// registration callback.
    pub fn register(
        &self,
        dll_name: XLOper12,
        arg_types: &str,
        arg_text: &str,
        category: &str,
        help_text: &str,
        arg_help: &Vec<String>,
    ) -> (opers: Vec<XLOper12>)
        ensures
            opers@.len() == 10 + arg_help@.len(),
            opers@[0] == dll_name,
            XLOper12::spec_from_utf8_rel(
                vstd::utf8::encode_utf8(self.exported_function@),
                opers@[1],
            ),
            XLOper12::spec_from_utf8_rel(arg_types.spec_bytes(), opers@[2]),
            XLOper12::spec_from_utf8_rel(vstd::utf8::encode_utf8(self.name@), opers@[3]),
            XLOper12::spec_from_utf8_rel(arg_text.spec_bytes(), opers@[4]),
            opers@[5].val == XlVal::Int(1),
            XLOper12::spec_from_utf8_rel(category.spec_bytes(), opers@[6]),
            opers@[7].val == XlVal::Missing,
            opers@[8].val == XlVal::Missing,
            XLOper12::spec_from_utf8_rel(help_text.spec_bytes(), opers@[9]),
            forall|i: int|
                10 <= i < opers@.len() ==> XLOper12::spec_from_utf8_rel(
                    vstd::utf8::encode_utf8(arg_help@[i - 10]@),
                    #[trigger] opers@[i],
                ),
    {
        let mut opers: Vec<XLOper12> = Vec::new();
        opers.push(dll_name);
        opers.push(XLOper12::from_text(self.exported_function.as_str()));
        opers.push(XLOper12::from_text(arg_types));
        opers.push(XLOper12::from_text(self.name.as_str()));
        opers.push(XLOper12::from_text(arg_text));
        opers.push(XLOper12::from_i32(1));
        opers.push(XLOper12::from_text(category));
        opers.push(XLOper12::missing());
        opers.push(XLOper12::missing());
        opers.push(XLOper12::from_text(help_text));
        let mut i: usize = 0;
        while i < arg_help.len()
            invariant
                opers@.len() == 10 + i,
                i <= arg_help@.len(),
                opers@[0] == dll_name,
                XLOper12::spec_from_utf8_rel(
                    vstd::utf8::encode_utf8(self.exported_function@),
                    opers@[1],
                ),
                XLOper12::spec_from_utf8_rel(arg_types.spec_bytes(), opers@[2]),
                XLOper12::spec_from_utf8_rel(vstd::utf8::encode_utf8(self.name@), opers@[3]),
                XLOper12::spec_from_utf8_rel(arg_text.spec_bytes(), opers@[4]),
                opers@[5].val == XlVal::Int(1),
                XLOper12::spec_from_utf8_rel(category.spec_bytes(), opers@[6]),
                opers@[7].val == XlVal::Missing,
                opers@[8].val == XlVal::Missing,
                XLOper12::spec_from_utf8_rel(help_text.spec_bytes(), opers@[9]),
                forall|j: int|
                    10 <= j < opers@.len() ==> XLOper12::spec_from_utf8_rel(
                        vstd::utf8::encode_utf8(arg_help@[j - 10]@),
                        #[trigger] opers@[j],
                    ),
            decreases arg_help@.len() - i,
        {
            opers.push(XLOper12::from_text(arg_help[i].as_str()));
            i = i + 1;
        }
        opers
    }
}

/// Whether the host accepted a registration: a zero status whose result is
/// not the `#VALUE!` error cell.
pub fn registration_succeeded(status_ok: bool, res: &XLOper12) -> (r: bool)
    ensures
        r == (status_ok && !(res.val matches XlVal::Error(c) && c as u32 == XLERR_VALUE)),
{
    status_ok && !res.is_err(XLERR_VALUE)
}

} // verus!
