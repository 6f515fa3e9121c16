//! A verified bridge between a spreadsheet host's real-time-data protocol
//! and an external publish/subscribe bus: the host's tagged values with
//! their three-state buffer-ownership discipline, the total and partial
//! conversions onto the bus's value union, the serial-day time rule with
//! the host's fictitious-leap-year quirk, the coalescing cross-thread
//! notification pump, and the write-deduplicating subscription
//! multiplexer.

pub mod bus;
pub mod config;
pub mod conv;
pub mod dispatch;
pub mod exceltime;
pub mod ieee;
pub mod registration;
pub mod rtd;
pub mod setter;
pub mod udf;
pub mod text;
pub mod utf16;
pub mod xloper12;
