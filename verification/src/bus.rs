//! The value representation of the publish/subscribe bus.
use vstd::prelude::*;

verus! {

/// A value as the bus carries it. Numbers keep their IEEE-754 binary64 bit
/// pattern, and instants are UTC milliseconds since the Unix epoch.
#[derive(Debug, PartialEq)]
pub enum BusValue {
    Null,
    F64(u64),
    I64(i64),
    Bool(bool),
    Text(String),
    DateTime(i64),
    Error(String),
}

} // verus!
