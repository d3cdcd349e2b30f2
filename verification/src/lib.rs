//! A countdown-reminder engine.
//!
//! The engine keeps one timer record: the seconds that remain, whether a
//! scheduler loop may tick it, the reminder type the running cycle counts
//! for, the loop-mode flag, the token of the loop that may tick, the
//! catalog of reminder types and the per-type completion counters.
//! Commands and the per-tick step are plain functions on that record; the
//! caller owns the lock, the clock and the delivery of events.

pub mod table;
pub mod catalog;
pub mod stats;
pub mod model;
pub mod timer;
pub mod theorems;
