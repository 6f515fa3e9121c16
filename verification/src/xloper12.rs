//! The host's tagged value representation and its ownership discipline.
//!
//! Every value carries, besides its type tag, exactly one of three ownership
//! states: `Static` payloads are immutable and never freed here, `Dll`
//! payloads must be freed by this side on destruction, and `Xl` payloads are
//! freed by the host and must never be freed here. The destruction and deep
//! copy rules below make the discipline explicit: destruction consumes the
//! value and reports the one free obligation it discharges, and a deep copy
//! always yields an independently owned (`Dll`) value.
use crate::ieee;
use crate::utf16;
use vstd::prelude::*;
use vstd::string::StringSliceAdditionalSpecFns;

verus! {

pub const XLTYPE_NUM: u32 = 0x0001;

pub const XLTYPE_STR: u32 = 0x0002;

pub const XLTYPE_BOOL: u32 = 0x0004;

pub const XLTYPE_REF: u32 = 0x0008;

pub const XLTYPE_ERR: u32 = 0x0010;

pub const XLTYPE_FLOW: u32 = 0x0020;

pub const XLTYPE_MULTI: u32 = 0x0040;

pub const XLTYPE_MISSING: u32 = 0x0080;

pub const XLTYPE_NIL: u32 = 0x0100;

pub const XLTYPE_SREF: u32 = 0x0400;

pub const XLTYPE_INT: u32 = 0x0800;

pub const XLTYPE_BIGDATA: u32 = 0x0802;

/// The host frees this payload; local code must not.
pub const XLBIT_XLFREE: u32 = 0x1000;

/// This side allocated the payload and must free it.
pub const XLBIT_DLLFREE: u32 = 0x4000;

pub const XLERR_NULL: u32 = 0;

pub const XLERR_DIV0: u32 = 7;

pub const XLERR_VALUE: u32 = 15;

pub const XLERR_REF: u32 = 23;

pub const XLERR_NAME: u32 = 29;

pub const XLERR_NUM: u32 = 36;

pub const XLERR_NA: u32 = 42;

pub const XLERR_GETTING_DATA: u32 = 43;

#[derive(Clone, Copy, Debug, PartialEq, Eq, Structural)]
pub enum XLType {
    Num,
    Str,
    Bool,
    Ref,
    Error,
    Flow,
    Multi,
    Missing,
    Nil,
    SRef,
    Int,
    BigData,
    Unknown(u32),
}

/// The host's error cell codes.
#[derive(Clone, Copy, Debug, PartialEq, Eq, Structural)]
pub enum XlErr {
    Null,
    Div0,
    Value,
    Ref,
    Name,
    Num,
    NA,
    GettingData,
}

impl XlErr {
    pub open spec fn spec_code(self) -> u32 {
        match self {
            XlErr::Null => XLERR_NULL,
            XlErr::Div0 => XLERR_DIV0,
            XlErr::Value => XLERR_VALUE,
            XlErr::Ref => XLERR_REF,
            XlErr::Name => XLERR_NAME,
            XlErr::Num => XLERR_NUM,
            XlErr::NA => XLERR_NA,
            XlErr::GettingData => XLERR_GETTING_DATA,
        }
    }

    /// The host's numeric code for this error.
    pub fn code(self) -> (r: u32)
        ensures
            r == self.spec_code(),
    {
        match self {
            XlErr::Null => XLERR_NULL,
            XlErr::Div0 => XLERR_DIV0,
            XlErr::Value => XLERR_VALUE,
            XlErr::Ref => XLERR_REF,
            XlErr::Name => XLERR_NAME,
            XlErr::Num => XLERR_NUM,
            XlErr::NA => XLERR_NA,
            XlErr::GettingData => XLERR_GETTING_DATA,
        }
    }
}

/// Exactly one of these holds of every value (see the module doc).
#[derive(Clone, Copy, Debug, PartialEq, Eq, Structural)]
pub enum Ownership {
    /// Immutable or static payload; never freed locally.
    Static,
    /// This side must free the payload on destruction.
    Dll,
    /// The host will free the payload; local code never does.
    Xl,
}

/// The coordinates of a single range reference.
#[derive(Clone, Copy, Debug, PartialEq, Eq, Structural)]
pub struct SRefData {
    pub rw_first: i32,
    pub rw_last: i32,
    pub col_first: i32,
    pub col_last: i32,
}

/// A two-dimensional, row-major array payload.
pub struct XlMulti {
    pub rows: i32,
    pub columns: i32,
    pub elems: Vec<XLOper12>,
}

/// The payload of a host value, one variant per type tag.
pub enum XlVal {
    /// An IEEE-754 binary64 pattern.
    Num(u64),
    /// Length-prefixed UTF-16: the first unit counts the rest.
    Str(Vec<u16>),
    Bool(i32),
    Ref,
    Error(i32),
    Flow,
    Multi(XlMulti),
    Missing,
    Nil,
    SRef(SRefData),
    Int(i32),
    BigData,
    Unknown(u32),
}

/// A host value: a payload and its ownership state.
pub struct XLOper12 {
    pub own: Ownership,
    pub val: XlVal,
}

/// What destroying one value obliges at its top level.
#[derive(Clone, Copy, Debug, PartialEq, Eq, Structural)]
pub enum FreeAction {
    /// No buffer to release.
    Nothing,
    /// Release the locally allocated string buffer.
    FreeStr,
    /// Release the locally allocated element array.
    FreeMulti,
    /// Hand the value back to the host, which frees it.
    AskHost,
}

impl XLOper12 {
    /// Well-formedness: string buffers carry their length prefix within the
    /// host's limit, and arrays are non-empty with consistent dimensions.
    pub open spec fn wf(self) -> bool
        decreases self,
    {
        match self.val {
            XlVal::Str(buf) => utf16::spec_prefixed_wf(buf@),
            XlVal::Multi(m) => {
                &&& m.rows >= 1
                &&& m.columns >= 1
                &&& m.rows * m.columns == m.elems@.len()
                &&& forall|i: int| 0 <= i < m.elems@.len() ==> (#[trigger] m.elems@[i]).wf()
            },
            _ => true,
        }
    }

    /// Runs the well-formedness check on a value, as the host boundary
    /// must before trusting a raw buffer.
    #[verifier::loop_isolation(false)]
    pub fn check_wf(&self) -> (r: bool)
        ensures
            r == self.wf(),
        decreases *self,
    {
        match &self.val {
            XlVal::Str(buf) => buf.len() >= 1 && buf.len() <= 32768 && (buf[0] as usize) == buf.len()
                - 1,
            XlVal::Multi(m) => {
                if m.rows < 1 || m.columns < 1 {
                    return false;
                }
                proof {
                    assert(1 <= (m.rows as i64) * (m.columns as i64)
                        < 0x4000_0000_0000_0000i64) by (nonlinear_arith)
                        requires
                            1 <= m.rows <= 0x7fff_ffffi64,
                            1 <= m.columns <= 0x7fff_ffffi64,
                    ;
                }
                let prod: i64 = (m.rows as i64) * (m.columns as i64);
                if (m.elems.len() as u64) != (prod as u64) {
                    return false;
                }
                let mut i: usize = 0;
                while i < m.elems.len()
                    invariant
                        i <= m.elems@.len(),
                        forall|j: int| 0 <= j < i ==> (#[trigger] m.elems@[j]).wf(),
                    decreases m.elems@.len() - i,
                {
                    if !m.elems[i].check_wf() {
                        return false;
                    }
                    i = i + 1;
                }
                true
            },
            _ => true,
        }
    }

    pub open spec fn spec_xltype(self) -> XLType {
        match self.val {
            XlVal::Num(_) => XLType::Num,
            XlVal::Str(_) => XLType::Str,
            XlVal::Bool(_) => XLType::Bool,
            XlVal::Ref => XLType::Ref,
            XlVal::Error(_) => XLType::Error,
            XlVal::Flow => XLType::Flow,
            XlVal::Multi(_) => XLType::Multi,
            XlVal::Missing => XLType::Missing,
            XlVal::Nil => XLType::Nil,
            XlVal::SRef(_) => XLType::SRef,
            XlVal::Int(_) => XLType::Int,
            XlVal::BigData => XLType::BigData,
            XlVal::Unknown(t) => XLType::Unknown(t),
        }
    }

    /// The value's type, with the ownership state set aside.
    pub fn xltype(&self) -> (t: XLType)
        ensures
            t == self.spec_xltype(),
    {
        match &self.val {
            XlVal::Num(_) => XLType::Num,
            XlVal::Str(_) => XLType::Str,
            XlVal::Bool(_) => XLType::Bool,
            XlVal::Ref => XLType::Ref,
            XlVal::Error(_) => XLType::Error,
            XlVal::Flow => XLType::Flow,
            XlVal::Multi(_) => XLType::Multi,
            XlVal::Missing => XLType::Missing,
            XlVal::Nil => XLType::Nil,
            XlVal::SRef(_) => XLType::SRef,
            XlVal::Int(_) => XLType::Int,
            XlVal::BigData => XLType::BigData,
            XlVal::Unknown(t) => XLType::Unknown(*t),
        }
    }

    /// A value of type `Nil`, the host's empty cell.
    pub fn empty() -> (r: Self)
        ensures
            r.own == Ownership::Static,
            r.val == XlVal::Nil,
            r.wf(),
    {
        XLOper12 { own: Ownership::Static, val: XlVal::Nil }
    }

    /// A value of type `Missing`, standing for an argument a caller left out.
    pub fn missing() -> (r: Self)
        ensures
            r.own == Ownership::Static,
            r.val == XlVal::Missing,
            r.wf(),
    {
        XLOper12 { own: Ownership::Static, val: XlVal::Missing }
    }

    /// An error cell.
    pub fn error(xlerr: XlErr) -> (r: Self)
        ensures
            r.own == Ownership::Static,
            r.val == XlVal::Error(xlerr.spec_code() as i32),
            r.wf(),
    {
        XLOper12 { own: Ownership::Static, val: XlVal::Error(xlerr.code() as i32) }
    }

    /// Whether this is an error cell carrying exactly the code `xlerr`.
    pub fn is_err(&self, xlerr: u32) -> (r: bool)
        ensures
            r == (self.val matches XlVal::Error(c) && c as u32 == xlerr),
    {
        match &self.val {
            XlVal::Error(c) => (*c) as u32 == xlerr,
            _ => false,
        }
    }

    /// Hands the free obligation for this value to the host. The payload is
    /// unchanged; only the ownership state moves to `Xl`.
    pub fn into_externally_owned(self) -> (r: Self)
        ensures
            r.own == Ownership::Xl,
            r.val == self.val,
    {
        XLOper12 { own: Ownership::Xl, val: self.val }
    }

    /// Whether destruction can run without hitting an unimplemented local
    /// free: no range payload, anywhere this side would free, claims local
    /// ownership. This bridge never builds such values.
    pub open spec fn free_safe(self) -> bool
        decreases self,
    {
        match self.own {
            Ownership::Xl => true,
            Ownership::Static => true,
            Ownership::Dll => match self.val {
                XlVal::Ref => false,
                XlVal::Multi(m) => forall|i: int|
                    0 <= i < m.elems@.len() ==> (#[trigger] m.elems@[i]).free_safe(),
                _ => true,
            },
        }
    }

    /// The one obligation destroying this value discharges at top level.
    pub open spec fn spec_free_action(self) -> FreeAction {
        match self.own {
            Ownership::Xl => FreeAction::AskHost,
            Ownership::Static => FreeAction::Nothing,
            Ownership::Dll => match self.val {
                XlVal::Str(_) => FreeAction::FreeStr,
                XlVal::Multi(_) => FreeAction::FreeMulti,
                _ => FreeAction::Nothing,
            },
        }
    }

    /// Destroys the value, consuming it, and reports what the destruction
    /// freed or handed over. A host-owned value is never freed locally; a
    /// locally owned string or array buffer is released exactly once — the
    /// move of `self` makes a second destruction impossible.
    pub fn destroy(self) -> (act: FreeAction)
        requires
            self.free_safe(),
        ensures
            act == self.spec_free_action(),
    {
        match self.own {
            Ownership::Xl => FreeAction::AskHost,
            Ownership::Static => FreeAction::Nothing,
            Ownership::Dll => match self.val {
                XlVal::Str(_) => FreeAction::FreeStr,
                XlVal::Multi(_) => FreeAction::FreeMulti,
                _ => FreeAction::Nothing,
            },
        }
    }

    /// The deep-copy relation: `b` is an independently owned copy of `a`,
    /// equal in payload, with every level re-tagged `Dll`.
    pub open spec fn clone_rel(a: XLOper12, b: XLOper12) -> bool
        decreases a,
    {
        &&& b.own == Ownership::Dll
        &&& match a.val {
            XlVal::Str(buf) => match b.val {
                XlVal::Str(bcopy) => bcopy@ == buf@,
                _ => false,
            },
            XlVal::Multi(m) => match b.val {
                XlVal::Multi(bm) => {
                    &&& bm.rows == m.rows
                    &&& bm.columns == m.columns
                    &&& bm.elems@.len() == m.elems@.len()
                    &&& forall|i: int|
                        0 <= i < m.elems@.len() ==> Self::clone_rel(
                            #[trigger] m.elems@[i],
                            bm.elems@[i],
                        )
                },
                _ => false,
            },
            v => b.val == v,
        }
    }

    /// Deep-copies the value into one this side owns and must free: heap
    /// payloads (string buffers, element arrays) are duplicated, so the copy
    /// has a lifetime independent of the original's owner.
    #[verifier::loop_isolation(false)]
    pub fn take_local_ownership(&self) -> (r: XLOper12)
        ensures
            Self::clone_rel(*self, r),
        decreases *self,
    {
        match &self.val {
            XlVal::Num(b) => XLOper12 { own: Ownership::Dll, val: XlVal::Num(*b) },
            XlVal::Str(buf) => {
                let mut copy: Vec<u16> = Vec::new();
                let mut i: usize = 0;
                while i < buf.len()
                    invariant
                        i <= buf@.len(),
                        copy@ == buf@.take(i as int),
                    decreases buf@.len() - i,
                {
                    copy.push(buf[i]);
                    proof {
                        assert(copy@ =~= buf@.take(i + 1));
                    }
                    i = i + 1;
                }
                proof {
                    assert(copy@ =~= buf@);
                }
                let r = XLOper12 { own: Ownership::Dll, val: XlVal::Str(copy) };
                proof {
                    assert(Self::clone_rel(*self, r));
                }
                r
            },
            XlVal::Bool(x) => XLOper12 { own: Ownership::Dll, val: XlVal::Bool(*x) },
            XlVal::Ref => XLOper12 { own: Ownership::Dll, val: XlVal::Ref },
            XlVal::Error(c) => XLOper12 { own: Ownership::Dll, val: XlVal::Error(*c) },
            XlVal::Flow => XLOper12 { own: Ownership::Dll, val: XlVal::Flow },
            XlVal::Multi(m) => {
                let mut elems: Vec<XLOper12> = Vec::new();
                let mut i: usize = 0;
                while i < m.elems.len()
                    invariant
                        i <= m.elems@.len(),
                        elems@.len() == i,
                        forall|j: int|
                            0 <= j < i ==> #[trigger] Self::clone_rel(m.elems@[j], elems@[j]),
                    decreases m.elems@.len() - i,
                {
                    let c = m.elems[i].take_local_ownership();
                    elems.push(c);
                    i = i + 1;
                }
                let r = XLOper12 {
                    own: Ownership::Dll,
                    val: XlVal::Multi(XlMulti { rows: m.rows, columns: m.columns, elems }),
                };
                proof {
                    assert forall|j: int|
                        0 <= j < self.val->Multi_0.elems@.len() implies Self::clone_rel(
                        #[trigger] self.val->Multi_0.elems@[j],
                        r.val->Multi_0.elems@[j],
                    ) by {
                        assert(self.val->Multi_0.elems@[j] == m.elems@[j]);
                        assert(r.val->Multi_0.elems@[j] == elems@[j]);
                        assert(Self::clone_rel(m.elems@[j], elems@[j]));
                    }
                    lemma_clone_rel_multi(*self, r);
                }
                r
            },
            XlVal::Missing => XLOper12 { own: Ownership::Dll, val: XlVal::Missing },
            XlVal::Nil => XLOper12 { own: Ownership::Dll, val: XlVal::Nil },
            XlVal::SRef(s) => XLOper12 { own: Ownership::Dll, val: XlVal::SRef(*s) },
            XlVal::Int(w) => XLOper12 { own: Ownership::Dll, val: XlVal::Int(*w) },
            XlVal::BigData => XLOper12 { own: Ownership::Dll, val: XlVal::BigData },
            XlVal::Unknown(t) => XLOper12 { own: Ownership::Dll, val: XlVal::Unknown(*t) },
        }
    }

    /// A numeric cell for a finite binary64 pattern; NaN and the infinities
    /// give the host's `#N/A` error cell instead of a malformed number.
    pub fn from_f64_bits(bits: u64) -> (r: Self)
        ensures
            !ieee::spec_nan_or_inf(bits) ==> r.own == Ownership::Static && r.val == XlVal::Num(
                bits,
            ),
            ieee::spec_nan_or_inf(bits) ==> r == Self::spec_na_error(),
            r.wf(),
    {
        if ieee::is_nan_or_inf(bits) {
            Self::error(XlErr::NA)
        } else {
            XLOper12 { own: Ownership::Static, val: XlVal::Num(bits) }
        }
    }

    pub open spec fn spec_na_error() -> XLOper12 {
        XLOper12 { own: Ownership::Static, val: XlVal::Error(XLERR_NA as i32) }
    }

    pub open spec fn spec_value_error() -> XLOper12 {
        XLOper12 { own: Ownership::Static, val: XlVal::Error(XLERR_VALUE as i32) }
    }

    /// A boolean cell.
    pub fn from_bool(v: bool) -> (r: Self)
        ensures
            r.own == Ownership::Static,
            r.val == XlVal::Bool(
                if v {
                    1i32
                } else {
                    0i32
                },
            ),
            r.wf(),
    {
        XLOper12 {
            own: Ownership::Static,
            val: XlVal::Bool(
                if v {
                    1
                } else {
                    0
                },
            ),
        }
    }

    /// An integer cell.
    pub fn from_i32(w: i32) -> (r: Self)
        ensures
            r.own == Ownership::Static,
            r.val == XlVal::Int(w),
            r.wf(),
    {
        XLOper12 { own: Ownership::Static, val: XlVal::Int(w) }
    }

    /// What encoding UTF-8 text into a host cell yields: a locally owned,
    /// length-prefixed string cell, or the host's `#VALUE!` error when the
    /// text needs more than 32767 UTF-16 units.
    pub open spec fn spec_from_utf8_rel(bytes: Seq<u8>, r: XLOper12) -> bool {
        if utf16::spec_utf16_of_utf8(bytes).len() <= 32767 {
            &&& r.own == Ownership::Dll
            &&& r.val matches XlVal::Str(buf) && buf@ == utf16::spec_prefixed(
                utf16::spec_utf16_of_utf8(bytes),
            )
        } else {
            r == Self::spec_value_error()
        }
    }

    /// A string cell holding the given UTF-8 text, re-encoded as the host's
    /// length-prefixed UTF-16; text beyond 32767 units gives `#VALUE!`.
    pub fn from_utf8(bytes: &[u8]) -> (r: Self)
        ensures
            Self::spec_from_utf8_rel(bytes@, r),
            r.wf(),
    {
        match utf16::encode_utf16_prefixed(bytes) {
            Some(buf) => XLOper12 { own: Ownership::Dll, val: XlVal::Str(buf) },
            None => Self::error(XlErr::Value),
        }
    }

    /// A string cell for borrowed text.
    pub fn from_text(s: &str) -> (r: Self)
        ensures
            Self::spec_from_utf8_rel(s.spec_bytes(), r),
            r.wf(),
    {
        Self::from_utf8(s.as_bytes())
    }
}

/// A string cell over an already length-prefixed UTF-16 buffer of static
/// provenance: the cell is tagged `Static` and its buffer is never freed.
pub fn xloper12_from_const_utf16(s: &[u16]) -> (r: XLOper12)
    requires
        utf16::spec_prefixed_wf(s@),
    ensures
        r.own == Ownership::Static,
        r.val matches XlVal::Str(buf) && buf@ == s@,
        r.wf(),
{
    let mut copy: Vec<u16> = Vec::new();
    let mut i: usize = 0;
    while i < s.len()
        invariant
            i <= s@.len(),
            copy@ == s@.take(i as int),
        decreases s@.len() - i,
    {
        copy.push(s[i]);
        proof {
            assert(copy@ =~= s@.take(i + 1));
        }
        i = i + 1;
    }
    proof {
        assert(copy@ =~= s@);
    }
    XLOper12 { own: Ownership::Static, val: XlVal::Str(copy) }
}

/// The type encoded by a raw host tag word: the two ownership bits are
/// masked off and the rest matched against the known tags.
pub open spec fn spec_xltype_of_tag(tag: u32) -> XLType {
    let t = tag & !(XLBIT_DLLFREE | XLBIT_XLFREE);
    if t == XLTYPE_NUM {
        XLType::Num
    } else if t == XLTYPE_STR {
        XLType::Str
    } else if t == XLTYPE_BOOL {
        XLType::Bool
    } else if t == XLTYPE_REF {
        XLType::Ref
    } else if t == XLTYPE_ERR {
        XLType::Error
    } else if t == XLTYPE_FLOW {
        XLType::Flow
    } else if t == XLTYPE_MULTI {
        XLType::Multi
    } else if t == XLTYPE_MISSING {
        XLType::Missing
    } else if t == XLTYPE_NIL {
        XLType::Nil
    } else if t == XLTYPE_SREF {
        XLType::SRef
    } else if t == XLTYPE_INT {
        XLType::Int
    } else if t == XLTYPE_BIGDATA {
        XLType::BigData
    } else {
        XLType::Unknown(t)
    }
}

/// Decodes a raw host tag word into the type it names.
pub fn xltype_of_tag(tag: u32) -> (r: XLType)
    ensures
        r == spec_xltype_of_tag(tag),
{
    let t: u32 = tag & !(XLBIT_DLLFREE | XLBIT_XLFREE);
    if t == XLTYPE_NUM {
        XLType::Num
    } else if t == XLTYPE_STR {
        XLType::Str
    } else if t == XLTYPE_BOOL {
        XLType::Bool
    } else if t == XLTYPE_REF {
        XLType::Ref
    } else if t == XLTYPE_ERR {
        XLType::Error
    } else if t == XLTYPE_FLOW {
        XLType::Flow
    } else if t == XLTYPE_MULTI {
        XLType::Multi
    } else if t == XLTYPE_MISSING {
        XLType::Missing
    } else if t == XLTYPE_NIL {
        XLType::Nil
    } else if t == XLTYPE_SREF {
        XLType::SRef
    } else if t == XLTYPE_INT {
        XLType::Int
    } else if t == XLTYPE_BIGDATA {
        XLType::BigData
    } else {
        XLType::Unknown(t)
    }
}

/// The raw tag word for a type.
pub fn tag_of_xltype(t: XLType) -> (r: u32)
    ensures
        r == spec_tag_of_xltype(t),
{
    match t {
        XLType::Num => XLTYPE_NUM,
        XLType::Str => XLTYPE_STR,
        XLType::Bool => XLTYPE_BOOL,
        XLType::Ref => XLTYPE_REF,
        XLType::Error => XLTYPE_ERR,
        XLType::Flow => XLTYPE_FLOW,
        XLType::Multi => XLTYPE_MULTI,
        XLType::Missing => XLTYPE_MISSING,
        XLType::Nil => XLTYPE_NIL,
        XLType::SRef => XLTYPE_SREF,
        XLType::Int => XLTYPE_INT,
        XLType::BigData => XLTYPE_BIGDATA,
        XLType::Unknown(v) => v,
    }
}

pub open spec fn spec_tag_of_xltype(t: XLType) -> u32 {
    match t {
        XLType::Num => XLTYPE_NUM,
        XLType::Str => XLTYPE_STR,
        XLType::Bool => XLTYPE_BOOL,
        XLType::Ref => XLTYPE_REF,
        XLType::Error => XLTYPE_ERR,
        XLType::Flow => XLTYPE_FLOW,
        XLType::Multi => XLTYPE_MULTI,
        XLType::Missing => XLTYPE_MISSING,
        XLType::Nil => XLTYPE_NIL,
        XLType::SRef => XLTYPE_SREF,
        XLType::Int => XLTYPE_INT,
        XLType::BigData => XLTYPE_BIGDATA,
        XLType::Unknown(v) => v,
    }
}

/// Decoding a known type's tag word, with either ownership bit set or none,
/// gives the type back: the ownership bits never disturb the type.
pub proof fn lemma_tag_roundtrip(t: XLType, dll: bool, xl: bool)
    requires
        !(t matches XLType::Unknown(_)),
    ensures
        spec_xltype_of_tag(
            spec_tag_of_xltype(t) | (if dll {
                XLBIT_DLLFREE
            } else {
                0
            }) | (if xl {
                XLBIT_XLFREE
            } else {
                0
            }),
        ) == t,
{
    let b = spec_tag_of_xltype(t);
    let dllb: u32 = if dll {
        XLBIT_DLLFREE
    } else {
        0
    };
    let xlb: u32 = if xl {
        XLBIT_XLFREE
    } else {
        0
    };
    let tagged = b | dllb | xlb;
    assert((tagged & !(0x4000u32 | 0x1000)) == b) by (bit_vector)
        requires
            b == 0x0001 || b == 0x0002 || b == 0x0004 || b == 0x0008 || b == 0x0010 || b == 0x0020
                || b == 0x0040 || b == 0x0080 || b == 0x0100 || b == 0x0400 || b == 0x0800 || b
                == 0x0802,
            dllb == 0x4000 || dllb == 0,
            xlb == 0x1000 || xlb == 0,
            tagged == b | dllb | xlb,
    ;
}

/// The ownership discipline of destruction: a host-owned value is never
/// freed locally, only handed back; a locally owned string or array buffer
/// is the one locally freed thing, exactly once each (`destroy` consumes
/// its value, so no second destruction can happen); a static payload is
/// never freed at all.
pub proof fn lemma_free_discipline(v: XLOper12)
    requires
        v.free_safe(),
    ensures
        v.spec_free_action() == FreeAction::AskHost <==> v.own == Ownership::Xl,
        v.spec_free_action() == FreeAction::FreeStr <==> (v.own == Ownership::Dll
            && v.val is Str),
        v.spec_free_action() == FreeAction::FreeMulti <==> (v.own == Ownership::Dll
            && v.val is Multi),
        v.own == Ownership::Static ==> v.spec_free_action() == FreeAction::Nothing,
{
}

/// A deep copy of a well-formed value is well-formed: re-tagging changes
/// no payload, and the duplicated buffers keep their shape.
pub proof fn lemma_clone_preserves_wf(a: XLOper12, b: XLOper12)
    requires
        XLOper12::clone_rel(a, b),
        a.wf(),
    ensures
        b.wf(),
    decreases a,
{
    match a.val {
        XlVal::Multi(m) => match b.val {
            XlVal::Multi(bm) => {
                assert forall|i: int| 0 <= i < bm.elems@.len() implies (#[trigger] bm.elems@[i]).wf() by {
                    assert(a.val->Multi_0.elems@[i] == m.elems@[i]);
                    assert(XLOper12::clone_rel(m.elems@[i], bm.elems@[i]));
                    lemma_clone_preserves_wf(m.elems@[i], bm.elems@[i]);
                }
            },
            _ => {},
        },
        _ => {},
    }
}

/// A well-formed array value has at least one element, and that element is
/// well-formed: scalar coercions may always read the top-left cell.
pub proof fn lemma_multi_nonempty(v: XLOper12)
    requires
        v.wf(),
        v.val matches XlVal::Multi(m),
    ensures
        v.val->Multi_0.elems@.len() >= 1,
        v.val->Multi_0.elems@[0].wf(),
{
    let m = v.val->Multi_0;
    assert(m.elems@.len() >= 1) by (nonlinear_arith)
        requires
            m.rows >= 1,
            m.columns >= 1,
            m.rows * m.columns == m.elems@.len(),
    ;
}

/// Concludes the deep-copy relation for an array value from the relation's
/// holding element by element.
proof fn lemma_clone_rel_multi(a: XLOper12, b: XLOper12)
    requires
        a.val matches XlVal::Multi(m),
        b.own == Ownership::Dll,
        b.val matches XlVal::Multi(bm),
        a.val->Multi_0.rows == b.val->Multi_0.rows,
        a.val->Multi_0.columns == b.val->Multi_0.columns,
        a.val->Multi_0.elems@.len() == b.val->Multi_0.elems@.len(),
        forall|i: int|
            0 <= i < a.val->Multi_0.elems@.len() ==> XLOper12::clone_rel(
                #[trigger] a.val->Multi_0.elems@[i],
                b.val->Multi_0.elems@[i],
            ),
    ensures
        XLOper12::clone_rel(a, b),
{
}

} // verus!

