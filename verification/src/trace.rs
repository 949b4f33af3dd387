//! What holds of every run of a transaction, whatever events arrive.

use vstd::prelude::*;
use crate::error::SensorError;
use crate::reading::{decoded, Reading, RESPONSE_LEN};
use crate::transaction::{
    next, Action, Event, Phase, MEASURE_HIGH_PRECISION, SETTLING_MILLIS,
};

verus! {

/// The phase reached and the actions requested, in order, when a fresh
/// transaction is fed `events` one after another. Events that the current
/// phase does not await leave no trace.
pub open spec fn run(events: Seq<Event>) -> (Phase, Seq<Action>)
    decreases events.len(),
{
    if events.len() == 0 {
        (Phase::Idle, Seq::<Action>::empty())
    } else {
        let (phase, actions) = run(events.drop_last());
        match next(phase, events.last()) {
            Some((after, action)) => (after, actions.push(action)),
            None => (phase, actions),
        }
    }
}

/// The request to write the measurement command.
pub open spec fn command_action() -> Action {
    Action::Write { command: MEASURE_HIGH_PRECISION }
}

/// The request to let the sensor settle.
pub open spec fn settle_action() -> Action {
    Action::Wait { millis: SETTLING_MILLIS }
}

/// The request to read the response.
pub open spec fn read_action() -> Action {
    Action::Read { count: RESPONSE_LEN }
}

/// Some event of the trace delivered six bytes that decode to `reading`.
pub open spec fn was_received(events: Seq<Event>, reading: Reading) -> bool {
    exists|i: int|
        0 <= i < events.len() && (#[trigger] events[i] matches Event::Received(bytes)
            && bytes@.len() == RESPONSE_LEN && decoded(bytes@) == reading)
}

/// The only sequences of actions a transaction can have requested, by the
/// phase it is in.
pub open spec fn in_order(events: Seq<Event>, phase: Phase, actions: Seq<Action>) -> bool {
    match phase {
        Phase::Idle => actions =~= Seq::<Action>::empty(),
        Phase::Commanding => actions =~= seq![command_action()],
        Phase::Settling => actions =~= seq![command_action(), settle_action()],
        Phase::Receiving => actions =~= seq![command_action(), settle_action(), read_action()],
        Phase::Finished => {
            ||| actions =~= seq![
                command_action(),
                Action::Complete(Err(SensorError::CommandFailed)),
            ]
            ||| actions =~= seq![
                command_action(),
                settle_action(),
                read_action(),
                Action::Complete(Err(SensorError::ReadFailed)),
            ]
            ||| exists|reading: Reading|
                #[trigger] was_received(events, reading) && actions =~= seq![
                    command_action(),
                    settle_action(),
                    read_action(),
                    Action::Complete(Ok(reading)),
                ]
        },
    }
}

/// Every run keeps to the order command, delay, read, result.
pub proof fn lemma_run_in_order(events: Seq<Event>)
    ensures
        in_order(events, run(events).0, run(events).1),
    decreases events.len(),
{
    if events.len() > 0 {
        let before = events.drop_last();
        let event = events.last();
        lemma_run_in_order(before);
        assert(before.push(event) =~= events);
        let (phase, actions) = run(before);
        match phase {
            Phase::Finished => {
                assert(next(phase, event) is None);
                if exists|reading: Reading|
                    #[trigger] was_received(before, reading) && actions =~= seq![
                        command_action(),
                        settle_action(),
                        read_action(),
                        Action::Complete(Ok(reading)),
                    ] {
                    let reading = choose|reading: Reading|
                        #[trigger] was_received(before, reading) && actions =~= seq![
                            command_action(),
                            settle_action(),
                            read_action(),
                            Action::Complete(Ok(reading)),
                        ];
                    lemma_received_is_kept(before, event, reading);
                    assert(was_received(events, reading));
                }
            },
            Phase::Receiving => {
                match event {
                    Event::Received(bytes) => {
                        if bytes@.len() == RESPONSE_LEN {
                            let reading = decoded(bytes@);
                            assert(events[events.len() - 1] == event);
                            assert(was_received(events, reading));
                        }
                    },
                    _ => {},
                }
            },
            _ => {},
        }
    }
}

/// A received response stays in the trace when one more event arrives.
proof fn lemma_received_is_kept(before: Seq<Event>, event: Event, reading: Reading)
    requires
        was_received(before, reading),
    ensures
        was_received(before.push(event), reading),
{
    let i = choose|i: int|
        0 <= i < before.len() && (#[trigger] before[i] matches Event::Received(bytes)
            && bytes@.len() == RESPONSE_LEN && decoded(bytes@) == reading);
    assert(before.push(event)[i] == before[i]);
}

/// A transaction that ends with a reading has requested exactly one write
/// of the measurement command, then the settling delay, then one read of
/// six bytes, in that order and nothing else; and the reading is the
/// decoding of six bytes that were received.
pub proof fn lemma_success_follows_protocol(events: Seq<Event>, reading: Reading)
    requires
        run(events).1.contains(Action::Complete(Ok(reading))),
    ensures
        run(events).0 == Phase::Finished,
        run(events).1 == seq![
            Action::Write { command: 0xFD },
            Action::Wait { millis: 10 },
            Action::Read { count: 6 },
            Action::Complete(Ok(reading)),
        ],
        was_received(events, reading),
{
    lemma_run_in_order(events);
    let actions = run(events).1;
    let i = choose|i: int| 0 <= i < actions.len() && actions[i] == Action::Complete(Ok(reading));
    assert(actions[i] == Action::Complete(Ok(reading)));
}

/// A transaction whose command write failed ends with `CommandFailed` and
/// has requested no delay and no read.
pub proof fn lemma_failed_write_reads_nothing(events: Seq<Event>)
    requires
        run(events).1.contains(Action::Complete(Err(SensorError::CommandFailed))),
    ensures
        run(events).0 == Phase::Finished,
        run(events).1 == seq![
            Action::Write { command: 0xFD },
            Action::Complete(Err(SensorError::CommandFailed)),
        ],
        !run(events).1.contains(read_action()),
{
    lemma_run_in_order(events);
    let actions = run(events).1;
    let i = choose|i: int|
        0 <= i < actions.len() && actions[i] == Action::Complete(
            Err(SensorError::CommandFailed),
        );
    assert(actions[i] == Action::Complete(Err(SensorError::CommandFailed)));
}

/// A write failure reported while the command is awaited ends the
/// transaction with `CommandFailed`; a failed or short read reported while
/// the response is awaited ends it with `ReadFailed`.
pub proof fn lemma_failures_propagate(bytes: Vec<u8>)
    ensures
        next(Phase::Commanding, Event::WriteFailed) == Some(
            (Phase::Finished, Action::Complete(Err(SensorError::CommandFailed))),
        ),
        next(Phase::Receiving, Event::ReadFailed) == Some(
            (Phase::Finished, Action::Complete(Err(SensorError::ReadFailed))),
        ),
        bytes@.len() != RESPONSE_LEN ==> next(Phase::Receiving, Event::Received(bytes)) == Some(
            (Phase::Finished, Action::Complete(Err(SensorError::ReadFailed))),
        ),
{
}

/// No transaction reports `BusUnavailable`: that failure belongs to
/// opening the bus, before any transaction.
pub proof fn lemma_never_bus_unavailable(events: Seq<Event>)
    ensures
        !run(events).1.contains(Action::Complete(Err(SensorError::BusUnavailable))),
{
    lemma_run_in_order(events);
    let actions = run(events).1;
    if actions.contains(Action::Complete(Err(SensorError::BusUnavailable))) {
        let i = choose|i: int|
            0 <= i < actions.len() && actions[i] == Action::Complete(
                Err(SensorError::BusUnavailable),
            );
        assert(actions[i] == Action::Complete(Err(SensorError::BusUnavailable)));
    }
}

} // verus!
