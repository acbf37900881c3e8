use lora_node::model::ScheduleError;
use lora_node::node::{
    payload_of, Node, Policy, SendAction, SendPhase, BUTTON, BUTTON_SOURCE, CARRIER, PRIORITY,
    SENDER, SEND_PERIOD, TX_LEVEL, TX_PIN,
};
use lora_node::radio::{
    Cause, DriverError, Handshake, Operation, PaPin, Pending, RadioMode, TxPower,
};
use lora_node::scheduler::Dispatch;
use lora_node::task::{Activation, TaskState};

fn booted(policy: Policy) -> Node {
    Node::boot(Handshake::Version(0x12), false, policy).unwrap()
}

#[test]
fn payload_of_lays_the_message_out() {
    let (buffer, length) = payload_of("Hello, world!").unwrap();
    assert_eq!(length, 13);
    assert_eq!(&buffer[..13], b"Hello, world!");
    assert!(buffer[13..].iter().all(|&b| b == 0));

    let (buffer, length) = payload_of("").unwrap();
    assert_eq!(length, 0);
    assert!(buffer.iter().all(|&b| b == 0));

    let longest = "x".repeat(255);
    let (buffer, length) = payload_of(&longest).unwrap();
    assert_eq!(length, 255);
    assert!(buffer.iter().all(|&b| b == b'x'));

    let too_long = "x".repeat(256);
    assert!(payload_of(&too_long).is_none());
}

#[test]
fn boot_arms_the_sender_for_its_first_run() {
    assert_eq!(SEND_PERIOD, 48_000_000);
    assert_eq!((TX_LEVEL, TX_PIN, CARRIER, PRIORITY), (17, 1, 433, 1));
    let n = booted(Policy::Halt);
    assert_eq!(n.scheduler.len(), 2);
    assert_eq!(n.scheduler.bound(BUTTON_SOURCE), Some(BUTTON));
    assert_eq!(n.scheduler.state(BUTTON), Some(TaskState::Dormant));
    assert_eq!(n.scheduler.state(SENDER), Some(TaskState::Pending));
    assert_eq!(n.scheduler.task(SENDER).unwrap().activation, Activation::Armed(48_000_000));
    assert_eq!(n.scheduler.next_alarm(), Some(48_000_000));
    assert_eq!(n.led.priority_ceiling(), 1);
    assert_eq!(n.radio.mode(), RadioMode::Standby);
    assert_eq!(n.radio.frequency(), 433);
    assert_eq!(n.policy, Policy::Halt);
    assert_eq!(n.phase, SendPhase::Idle);
}

#[test]
fn boot_without_the_radio_is_fatal() {
    let expected = DriverError { operation: Operation::Initialize, cause: Cause::NoResponse };
    match Node::boot(Handshake::NoResponse, false, Policy::Continue) {
        Err(e) => {
            assert_eq!(e, expected);
            assert!(Policy::Continue.is_fatal(e));
            assert!(Policy::Halt.is_fatal(e));
        }
        Ok(_) => panic!("no radio, no node"),
    }
    match Node::boot(Handshake::Version(0x13), true, Policy::Halt) {
        Err(e) => assert_eq!(e.cause, Cause::VersionMismatch(0x13)),
        Ok(_) => panic!("no radio, no node"),
    }
}

#[test]
fn policy_decides_what_is_fatal() {
    let bus = DriverError { operation: Operation::Transmit, cause: Cause::Bus };
    let level = DriverError { operation: Operation::Configure, cause: Cause::LevelOutOfRange };
    assert!(Policy::Halt.is_fatal(bus));
    assert!(Policy::Halt.is_fatal(level));
    assert!(!Policy::Continue.is_fatal(bus));
    assert!(!Policy::Continue.is_fatal(level));
}

#[test]
fn button_toggles_the_indicator() {
    let mut n = booted(Policy::Halt);
    assert_eq!(n.scheduler.dispatch_interrupt(BUTTON_SOURCE), Dispatch::Started(BUTTON));
    assert!(n.on_button());
    assert_eq!(n.scheduler.complete().finished, Some(BUTTON));
    assert_eq!(n.scheduler.dispatch_interrupt(BUTTON_SOURCE), Dispatch::Started(BUTTON));
    assert!(!n.on_button());
    assert_eq!(n.scheduler.ceiling(), None);
    assert_eq!(n.scheduler.complete().finished, Some(BUTTON));

    let mut lit = Node::boot(Handshake::Version(0x12), true, Policy::Halt).unwrap();
    assert!(!lit.on_button());
}

#[test]
fn sender_run_transmits_the_greeting_and_asks_for_the_next_run() {
    let mut n = booted(Policy::Halt);
    n.scheduler.advance_clock(SEND_PERIOD);
    assert_eq!(n.scheduler.tick().started, Some(SENDER));

    match n.send_start() {
        SendAction::WritePower(p) => {
            assert_eq!(p, TxPower { level: 17, pin: PaPin::PaBoost })
        }
        other => panic!("unexpected {:?}", other),
    }
    assert_eq!(n.phase, SendPhase::Power);
    assert!(matches!(n.send_start(), SendAction::Nothing));

    match n.send_bus_done(true) {
        SendAction::Transmit(frame) => {
            assert_eq!(frame.len(), 13);
            assert_eq!(&frame.buffer()[..13], b"Hello, world!");
            assert!(frame.buffer()[13..].iter().all(|&b| b == 0));
        }
        other => panic!("unexpected {:?}", other),
    }
    assert_eq!(n.phase, SendPhase::Payload);
    assert_eq!(n.radio.mode(), RadioMode::Tx);
    assert_eq!(n.radio.pending(), Pending::Payload(13));

    match n.send_bus_done(true) {
        SendAction::Finished(next) => assert_eq!(next, Some(2 * SEND_PERIOD)),
        other => panic!("unexpected {:?}", other),
    }
    assert_eq!(n.phase, SendPhase::Idle);
    assert_eq!(n.radio.mode(), RadioMode::Standby);
    assert_eq!(n.scheduler.state(SENDER), Some(TaskState::Running));
    assert_eq!(n.scheduler.complete().finished, Some(SENDER));
    assert_eq!(n.scheduler.state(SENDER), Some(TaskState::Pending));
    assert_eq!(n.scheduler.next_alarm(), Some(96_000_000));
    // The indicator was toggled once in the run.
    assert!(!n.on_button());
}

#[test]
fn failed_transfer_halts_under_the_default_policy() {
    let mut n = booted(Policy::Halt);
    assert!(matches!(n.send_start(), SendAction::WritePower(_)));
    match n.send_bus_done(false) {
        SendAction::Halt(e) => {
            assert_eq!(e, DriverError { operation: Operation::Configure, cause: Cause::Bus })
        }
        other => panic!("unexpected {:?}", other),
    }
    assert_eq!(n.phase, SendPhase::Idle);
    assert_eq!(n.scheduler.next_alarm(), Some(SEND_PERIOD));

    let mut n = booted(Policy::Halt);
    assert!(matches!(n.send_start(), SendAction::WritePower(_)));
    assert!(matches!(n.send_bus_done(true), SendAction::Transmit(_)));
    match n.send_bus_done(false) {
        SendAction::Halt(e) => {
            assert_eq!(e, DriverError { operation: Operation::Transmit, cause: Cause::Bus })
        }
        other => panic!("unexpected {:?}", other),
    }
    assert_eq!(n.radio.mode(), RadioMode::Standby);
}

#[test]
fn failed_transfer_ends_the_run_under_the_lenient_policy() {
    let mut n = booted(Policy::Continue);
    n.scheduler.advance_clock(SEND_PERIOD);
    assert_eq!(n.scheduler.tick().started, Some(SENDER));
    assert!(matches!(n.send_start(), SendAction::WritePower(_)));
    match n.send_bus_done(false) {
        SendAction::Finished(next) => assert_eq!(next, Some(2 * SEND_PERIOD)),
        other => panic!("unexpected {:?}", other),
    }
    assert_eq!(n.phase, SendPhase::Idle);
    assert_eq!(n.radio.pending(), Pending::Nothing);
    assert_eq!(n.radio.power().level, 17);

    assert!(matches!(n.send_start(), SendAction::WritePower(_)));
    assert!(matches!(n.send_bus_done(true), SendAction::Transmit(_)));
    assert!(matches!(n.send_bus_done(false), SendAction::Finished(Some(96_000_000))));
    assert_eq!(n.radio.mode(), RadioMode::Standby);
}

#[test]
fn radio_that_is_not_ready_fails_the_run_at_its_start() {
    let mut n = booted(Policy::Halt);
    n.radio.set_mode(RadioMode::Sleep).unwrap();
    n.radio.bus_done(true).unwrap();
    match n.send_start() {
        SendAction::Halt(e) => {
            assert_eq!(e, DriverError { operation: Operation::Configure, cause: Cause::NotReady })
        }
        other => panic!("unexpected {:?}", other),
    }
    // The indicator is toggled before the radio is asked.
    assert!(!n.on_button());

    let mut n = booted(Policy::Continue);
    n.radio.set_mode(RadioMode::Sleep).unwrap();
    assert!(matches!(n.send_start(), SendAction::Finished(Some(48_000_000))));
}

#[test]
fn run_ends_without_a_next_one_when_the_clock_is_at_its_end() {
    let mut n = booted(Policy::Halt);
    n.scheduler.advance_clock(u64::MAX - 1);
    assert_eq!(n.scheduler.tick().started, Some(SENDER));
    assert!(matches!(n.send_start(), SendAction::WritePower(_)));
    assert!(matches!(n.send_bus_done(true), SendAction::Transmit(_)));
    assert!(matches!(n.send_bus_done(true), SendAction::Finished(None)));
    assert_eq!(n.scheduler.schedule_after(SENDER, SEND_PERIOD), Err(ScheduleError::ClockRange));
    assert_eq!(n.scheduler.complete().finished, Some(SENDER));
    assert!(n.scheduler.is_idle());
}

#[test]
fn bus_report_outside_a_run_is_ignored() {
    let mut n = booted(Policy::Halt);
    assert!(matches!(n.send_bus_done(true), SendAction::Nothing));
    assert!(matches!(n.send_bus_done(false), SendAction::Nothing));
    assert_eq!(n.phase, SendPhase::Idle);
    assert_eq!(n.scheduler.next_alarm(), Some(SEND_PERIOD));
}

#[test]
fn node_keeps_time_over_a_wraparound_of_the_timer() {
    let mut n = booted(Policy::Halt);
    assert_eq!(n.counter.total(), 0);
    assert_eq!(n.observe(47_999_999), 47_999_999);
    assert_eq!(n.scheduler.tick().started, None);
    assert_eq!(n.observe(48_000_000), 48_000_000);
    assert_eq!(n.scheduler.tick().started, Some(SENDER));
    assert_eq!(n.scheduler.complete().finished, Some(SENDER));

    assert_eq!(n.observe(4_000_000_000), 4_000_000_000);
    assert_eq!(n.scheduler.schedule_after(SENDER, SEND_PERIOD), Ok(4_048_000_000));
    assert_eq!(n.observe(4_047_999_999), 4_047_999_999);
    assert_eq!(n.scheduler.schedule_after(SENDER, 2 * SEND_PERIOD), Ok(4_143_999_999));
    // The 32-bit timer wraps round before the due-time.
    assert_eq!(n.observe(1_000), 4_294_968_296);
    assert_eq!(n.scheduler.now(), 4_294_968_296);
    assert_eq!(n.scheduler.tick().started, Some(SENDER));
}
