use sht45::error::SensorError;
use sht45::reading::Reading;
use sht45::transaction::{
    Action, Event, Phase, Transaction, MEASURE_HIGH_PRECISION, SENSOR_ADDRESS, SETTLING_MILLIS,
};

/// What the mock bus saw, in order.
#[derive(Debug, Clone, PartialEq, Eq)]
enum Call {
    Write(Vec<u8>),
    Delay(u64),
    Read(usize),
}

/// A bus that records every call and answers as scripted.
struct MockBus {
    calls: Vec<Call>,
    write_fails: bool,
    read_fails: bool,
    response: Vec<u8>,
}

impl MockBus {
    fn answering(response: &[u8]) -> MockBus {
        MockBus { calls: Vec::new(), write_fails: false, read_fails: false, response: response.to_vec() }
    }

    fn perform(&mut self, action: Action) -> Event {
        match action {
            Action::Write { command } => {
                self.calls.push(Call::Write(vec![command]));
                if self.write_fails { Event::WriteFailed } else { Event::Written }
            }
            Action::Wait { millis } => {
                self.calls.push(Call::Delay(millis));
                Event::Waited
            }
            Action::Read { count } => {
                self.calls.push(Call::Read(count));
                if self.read_fails { Event::ReadFailed } else { Event::Received(self.response.clone()) }
            }
            Action::Complete(_) => unreachable!(),
        }
    }
}

/// Runs one whole transaction against the mock bus.
fn measure(bus: &mut MockBus) -> Result<Reading, SensorError> {
    let mut transaction = Transaction::new();
    let mut event = Event::Start;
    loop {
        match transaction.step(event) {
            Some(Action::Complete(result)) => {
                assert_eq!(transaction.current_phase(), Phase::Finished);
                return result;
            }
            Some(action) => event = bus.perform(action),
            None => panic!("the transaction refused an event it had asked for"),
        }
    }
}

#[test]
fn protocol_constants() {
    assert_eq!(SENSOR_ADDRESS, 0x44);
    assert_eq!(MEASURE_HIGH_PRECISION, 0xFD);
    assert_eq!(SETTLING_MILLIS, 10);
}

#[test]
fn new_transaction_is_idle() {
    assert_eq!(Transaction::new().current_phase(), Phase::Idle);
}

#[test]
fn successful_measurement_writes_waits_then_reads() {
    let mut bus = MockBus::answering(&[0x66, 0x66, 0x00, 0x80, 0x00, 0x00]);
    let reading = measure(&mut bus).unwrap();
    assert_eq!(bus.calls, vec![Call::Write(vec![0xFD]), Call::Delay(10), Call::Read(6)]);
    assert_eq!(reading, Reading { temperature_ticks: 0x6666, humidity_ticks: 0x8000 });
}

#[test]
fn delay_is_at_least_the_settling_time() {
    let mut bus = MockBus::answering(&[0; 6]);
    measure(&mut bus).unwrap();
    match bus.calls[1] {
        Call::Delay(millis) => assert!(millis >= 10),
        _ => panic!("the second call was not the delay"),
    }
}

#[test]
fn each_measurement_is_a_transaction_of_its_own() {
    let mut bus = MockBus::answering(&[0x00, 0x01, 0x00, 0x00, 0x02, 0x00]);
    let first = measure(&mut bus).unwrap();
    bus.response = vec![0x00, 0x03, 0x00, 0x00, 0x04, 0x00];
    let second = measure(&mut bus).unwrap();
    assert_eq!(first, Reading { temperature_ticks: 1, humidity_ticks: 2 });
    assert_eq!(second, Reading { temperature_ticks: 3, humidity_ticks: 4 });
    let one = vec![Call::Write(vec![0xFD]), Call::Delay(10), Call::Read(6)];
    assert_eq!(bus.calls, [one.clone(), one].concat());
}

#[test]
fn failed_write_is_command_failed_and_nothing_is_read() {
    let mut bus = MockBus::answering(&[0; 6]);
    bus.write_fails = true;
    assert_eq!(measure(&mut bus), Err(SensorError::CommandFailed));
    assert_eq!(bus.calls, vec![Call::Write(vec![0xFD])]);
}

#[test]
fn failed_read_is_read_failed() {
    let mut bus = MockBus::answering(&[0; 6]);
    bus.read_fails = true;
    assert_eq!(measure(&mut bus), Err(SensorError::ReadFailed));
    assert_eq!(bus.calls, vec![Call::Write(vec![0xFD]), Call::Delay(10), Call::Read(6)]);
}

#[test]
fn short_read_is_read_failed() {
    for len in 0..6 {
        let mut bus = MockBus::answering(&[0xAB; 6][..len]);
        assert_eq!(measure(&mut bus), Err(SensorError::ReadFailed));
        assert_eq!(bus.calls, vec![Call::Write(vec![0xFD]), Call::Delay(10), Call::Read(6)]);
    }
}

#[test]
fn overlong_read_is_read_failed() {
    let mut bus = MockBus::answering(&[0xAB; 7]);
    assert_eq!(measure(&mut bus), Err(SensorError::ReadFailed));
}

#[test]
fn no_transaction_reports_bus_unavailable() {
    let mut failing_write = MockBus::answering(&[0; 6]);
    failing_write.write_fails = true;
    let mut failing_read = MockBus::answering(&[0; 6]);
    failing_read.read_fails = true;
    let mut short = MockBus::answering(&[0; 3]);
    for bus in [&mut failing_write, &mut failing_read, &mut short] {
        assert_ne!(measure(bus), Err(SensorError::BusUnavailable));
    }
}

#[test]
fn steps_one_by_one() {
    let mut t = Transaction::new();
    assert_eq!(t.step(Event::Start), Some(Action::Write { command: 0xFD }));
    assert_eq!(t.current_phase(), Phase::Commanding);
    assert_eq!(t.step(Event::Written), Some(Action::Wait { millis: 10 }));
    assert_eq!(t.current_phase(), Phase::Settling);
    assert_eq!(t.step(Event::Waited), Some(Action::Read { count: 6 }));
    assert_eq!(t.current_phase(), Phase::Receiving);
    assert_eq!(
        t.step(Event::Received(vec![0xFF, 0xFF, 0, 0x00, 0x00, 0])),
        Some(Action::Complete(Ok(Reading { temperature_ticks: 65535, humidity_ticks: 0 })))
    );
    assert_eq!(t.current_phase(), Phase::Finished);
}

fn all_events() -> Vec<Event> {
    vec![
        Event::Start,
        Event::Written,
        Event::WriteFailed,
        Event::Waited,
        Event::Received(vec![1, 2, 3, 4, 5, 6]),
        Event::ReadFailed,
    ]
}

fn advanced_to(phase: Phase) -> Transaction {
    let mut t = Transaction::new();
    let path = [Event::Start, Event::Written, Event::Waited, Event::ReadFailed];
    for event in path {
        if t.current_phase() == phase {
            break;
        }
        t.step(event);
    }
    assert_eq!(t.current_phase(), phase);
    t
}

#[test]
fn events_that_are_not_awaited_are_ignored() {
    let awaited = |phase: Phase, event: &Event| match (phase, event) {
        (Phase::Idle, Event::Start) => true,
        (Phase::Commanding, Event::Written) | (Phase::Commanding, Event::WriteFailed) => true,
        (Phase::Settling, Event::Waited) => true,
        (Phase::Receiving, Event::Received(_)) | (Phase::Receiving, Event::ReadFailed) => true,
        _ => false,
    };
    for phase in [Phase::Idle, Phase::Commanding, Phase::Settling, Phase::Receiving, Phase::Finished] {
        for event in all_events() {
            let mut t = advanced_to(phase);
            let expected = awaited(phase, &event);
            let action = t.step(event);
            assert_eq!(action.is_some(), expected);
            if !expected {
                assert_eq!(t.current_phase(), phase);
            }
        }
    }
}

#[test]
fn bytes_offered_before_the_delay_are_not_decoded() {
    let mut t = advanced_to(Phase::Settling);
    assert_eq!(t.step(Event::Received(vec![0; 6])), None);
    assert_eq!(t.current_phase(), Phase::Settling);
    assert_eq!(t.step(Event::Waited), Some(Action::Read { count: 6 }));
}

#[test]
fn a_finished_transaction_cannot_be_restarted() {
    let mut t = advanced_to(Phase::Finished);
    assert_eq!(t.step(Event::Start), None);
    assert_eq!(t.current_phase(), Phase::Finished);
}

#[test]
fn stray_events_do_not_disturb_a_transaction() {
    let mut t = Transaction::new();
    let mut actions = Vec::new();
    let events = vec![
        Event::Waited,
        Event::Start,
        Event::Start,
        Event::ReadFailed,
        Event::Written,
        Event::Written,
        Event::Received(vec![9; 6]),
        Event::Waited,
        Event::WriteFailed,
        Event::Received(vec![0x80, 0x00, 0x11, 0x40, 0x00, 0x22]),
        Event::ReadFailed,
    ];
    for event in events {
        if let Some(action) = t.step(event) {
            actions.push(action);
        }
    }
    assert_eq!(
        actions,
        vec![
            Action::Write { command: 0xFD },
            Action::Wait { millis: 10 },
            Action::Read { count: 6 },
            Action::Complete(Ok(Reading { temperature_ticks: 0x8000, humidity_ticks: 0x4000 })),
        ]
    );
}
