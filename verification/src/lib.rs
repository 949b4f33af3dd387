//! Driver core for the SHT45 temperature and humidity sensor.
//!
//! The crate performs no I/O of its own. It holds the wire layout of the
//! sensor's response, the conversion of raw ticks into physical units, and
//! the sequencing of one measurement transaction as a state machine that the
//! caller drives with the outcomes of its bus operations.

pub mod error;
pub mod reading;
pub mod trace;
pub mod transaction;
pub mod units;
