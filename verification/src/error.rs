//! Failures that a caller of the driver can observe.

use vstd::prelude::*;

verus! {

/// Why no reading could be produced.
#[derive(Debug, Clone, Copy, PartialEq, Eq, Structural)]
pub enum SensorError {
    /// The bus could not be opened for the sensor's address. This happens
    /// before any transaction and leaves no way to reach the sensor.
    BusUnavailable,
    /// The measurement command could not be written to the sensor.
    CommandFailed,
    /// The response could not be read, or was not exactly six bytes long.
    ReadFailed,
}

} // verus!
