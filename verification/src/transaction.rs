//! One measurement transaction as a state machine.
//!
//! The machine never touches the bus. It tells the caller which bus
//! operation to perform next and is told how that operation ended. A
//! transaction is used once: command, settling delay, read, result.

use vstd::prelude::*;
use crate::error::SensorError;
use crate::reading::{decode, decoded, Reading, RESPONSE_LEN};

verus! {

/// The sensor's fixed seven-bit bus address.
pub const SENSOR_ADDRESS: u8 = 0x44;

/// The command byte that triggers one high-precision measurement.
pub const MEASURE_HIGH_PRECISION: u8 = 0xFD;

/// How long the sensor needs to finish a high-precision conversion, in
/// milliseconds. Reading earlier yields stale bytes without any error.
pub const SETTLING_MILLIS: u64 = 10;

/// Where a transaction stands.
#[derive(Debug, Clone, Copy, PartialEq, Eq, Structural)]
pub enum Phase {
    /// Nothing has been asked of the bus yet.
    Idle,
    /// The command write was requested and its outcome is awaited.
    Commanding,
    /// The command was written and the sensor is converting.
    Settling,
    /// The read was requested and its outcome is awaited.
    Receiving,
    /// The transaction has produced its result.
    Finished,
}

/// What the caller is to do next.
#[derive(Debug, Clone, Copy, PartialEq, Eq)]
pub enum Action {
    /// Write this single byte to the sensor.
    Write { command: u8 },
    /// Block for at least this many milliseconds, with no other bus
    /// operation in between.
    Wait { millis: u64 },
    /// Read exactly this many bytes from the sensor.
    Read { count: usize },
    /// The transaction is over, with this result.
    Complete(Result<Reading, SensorError>),
}

/// What the caller reports back.
#[derive(Debug, PartialEq, Eq)]
pub enum Event {
    /// A measurement is wanted.
    Start,
    /// The requested write went through.
    Written,
    /// The requested write failed.
    WriteFailed,
    /// The requested delay has fully elapsed.
    Waited,
    /// The requested read returned these bytes.
    Received(Vec<u8>),
    /// The requested read failed.
    ReadFailed,
}

/// The transition relation: the phase and the action that follow when
/// `event` arrives in `phase`, or `None` where the phase does not await
/// that event.
pub open spec fn next(phase: Phase, event: Event) -> Option<(Phase, Action)> {
    match (phase, event) {
        (Phase::Idle, Event::Start) => Some(
            (Phase::Commanding, Action::Write { command: MEASURE_HIGH_PRECISION }),
        ),
        (Phase::Commanding, Event::Written) => Some(
            (Phase::Settling, Action::Wait { millis: SETTLING_MILLIS }),
        ),
        (Phase::Commanding, Event::WriteFailed) => Some(
            (Phase::Finished, Action::Complete(Err(SensorError::CommandFailed))),
        ),
        (Phase::Settling, Event::Waited) => Some(
            (Phase::Receiving, Action::Read { count: RESPONSE_LEN }),
        ),
        (Phase::Receiving, Event::Received(bytes)) => Some(
            (
                Phase::Finished,
                Action::Complete(
                    if bytes@.len() == RESPONSE_LEN {
                        Ok(decoded(bytes@))
                    } else {
                        Err(SensorError::ReadFailed)
                    },
                ),
            ),
        ),
        (Phase::Receiving, Event::ReadFailed) => Some(
            (Phase::Finished, Action::Complete(Err(SensorError::ReadFailed))),
        ),
        _ => None,
    }
}

/// A single measurement transaction.
pub struct Transaction {
    phase: Phase,
}

impl Transaction {
    /// The phase the transaction is in.
    pub closed spec fn phase(&self) -> Phase {
        self.phase
    }

    /// A transaction that has not started.
    pub fn new() -> (t: Transaction)
        ensures
            t.phase() == Phase::Idle,
    {
        Transaction { phase: Phase::Idle }
    }

    /// The phase the transaction is in.
    pub fn current_phase(&self) -> (p: Phase)
        ensures
            p == self.phase(),
    {
        self.phase
    }

    /// Takes one event. Where the current phase awaits it, the transaction
    /// moves on and the next action is returned. Any other event is ignored:
    /// the transaction stays as it is and `None` is returned.
    pub fn step(&mut self, event: Event) -> (action: Option<Action>)
        ensures
            match next(old(self).phase(), event) {
                Some((phase, act)) => final(self).phase() == phase && action == Some(act),
                None => final(self).phase() == old(self).phase() && action is None,
            },
    {
        match self.phase {
            Phase::Idle => match event {
                Event::Start => {
                    self.phase = Phase::Commanding;
                    Some(Action::Write { command: MEASURE_HIGH_PRECISION })
                },
                _ => None,
            },
            Phase::Commanding => match event {
                Event::Written => {
                    self.phase = Phase::Settling;
                    Some(Action::Wait { millis: SETTLING_MILLIS })
                },
                Event::WriteFailed => {
                    self.phase = Phase::Finished;
                    Some(Action::Complete(Err(SensorError::CommandFailed)))
                },
                _ => None,
            },
            Phase::Settling => match event {
                Event::Waited => {
                    self.phase = Phase::Receiving;
                    Some(Action::Read { count: RESPONSE_LEN })
                },
                _ => None,
            },
            Phase::Receiving => match event {
                Event::Received(bytes) => {
                    self.phase = Phase::Finished;
                    Some(Action::Complete(decode(bytes.as_slice())))
                },
                Event::ReadFailed => {
                    self.phase = Phase::Finished;
                    Some(Action::Complete(Err(SensorError::ReadFailed)))
                },
                _ => None,
            },
            Phase::Finished => None,
        }
    }
}

} // verus!
