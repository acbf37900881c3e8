//! The node's application: a button that toggles the indicator, and a
//! sender that toggles it too and transmits a greeting once a second.
//!
//! The functions here are the decisions of the two tasks. The caller owns the
//! hardware: it drives the pin to the level it is told, makes the bus
//! transfers it is handed, and reports how they ended.

use vstd::prelude::*;
use vstd::string::StringSliceAdditionalSpecFns;
use crate::clock::{WideCounter, elapsed, ticks_of_secs};
use crate::lock::{Shared, with_lock};
use crate::lemmas::lemma_schedule;
use crate::model::{SchedulerModel, armed_count, users_ceiling};
use crate::radio::{
    Cause, Done, DriverError, Frame, Handshake, Operation, PaPin, Pending, RadioDriver, RadioMode,
    RadioModel, TxPower,
};
use crate::scheduler::Scheduler;
use crate::task::{Activation, TaskConfig};

verus! {

/// The identifier of the button's task.
pub const BUTTON: usize = 0;

/// The identifier of the sender's task.
pub const SENDER: usize = 1;

/// The interrupt source of the button: external interrupt line 0.
pub const BUTTON_SOURCE: u8 = 0;

/// The priority of both tasks.
pub const PRIORITY: u8 = 1;

/// The time between two runs of the sender, in seconds.
pub const SEND_PERIOD_SECS: u32 = 1;

/// The time between two runs of the sender, in ticks of the timer.
pub const SEND_PERIOD: u64 = 48_000_000;

/// The carrier frequency, in MHz.
pub const CARRIER: i64 = 433;

/// The transmit power of the node, in dBm.
pub const TX_LEVEL: i32 = 17;

/// The selector of the amplifier pin of the node: the boosted pin.
pub const TX_PIN: u8 = 1;

/// The time between two runs of the sender, counted in ticks of the timer.
pub fn send_period() -> (ticks: u64)
    ensures
        ticks == SEND_PERIOD,
{
    match ticks_of_secs(SEND_PERIOD_SECS) {
        Some(ticks) => ticks,
        None => SEND_PERIOD,
    }
}

/// The bytes of the greeting that the sender transmits.
pub open spec fn greeting() -> Seq<u8> {
    "Hello, world!".spec_bytes()
}

/// The buffer for a message: the bytes of the message, then zeros.
pub open spec fn padded(bytes: Seq<u8>) -> Seq<u8> {
    Seq::new(
        255,
        |i: int|
            if i < bytes.len() {
                bytes[i]
            } else {
                0u8
            },
    )
}

/// Lays a message out in a payload buffer: its bytes from the start of the
/// buffer, zeros behind them. The answer is the buffer and the length of the
/// message, or nothing where the message does not fit in the buffer.
pub fn payload_of(message: &str) -> (r: Option<([u8; 255], usize)>)
    ensures
        r is Some <==> message.spec_bytes().len() <= 255,
        r matches Some((buffer, length)) ==> length == message.spec_bytes().len() && buffer@
            == padded(message.spec_bytes()) && buffer@.take(length as int)
            == message.spec_bytes(),
{
    let bytes: &[u8] = message.as_bytes();
    let n: usize = bytes.len();
    if n > 255 {
        return None;
    }
    let mut buffer: [u8; 255] = [0u8; 255];
    let mut i: usize = 0;
    while i < n
        invariant
            n == bytes@.len(),
            n <= 255,
            i <= n,
            forall|k: int| 0 <= k < i ==> buffer@[k] == bytes@[k],
            forall|k: int| i <= k < 255 ==> buffer@[k] == 0u8,
        decreases n - i,
    {
        buffer[i] = bytes[i];
        i = i + 1;
    }
    assert(buffer@ =~= padded(message.spec_bytes()));
    assert(buffer@.take(n as int) =~= message.spec_bytes());
    Some((buffer, n))
}

/// What the application makes of a failed operation of the driver.
#[derive(Clone, Copy, Debug, PartialEq, Eq, Structural)]
pub enum Policy {
    /// Every failure is fatal: the node halts.
    Halt,
    /// A failure ends the run in which it came up; the node goes on. A
    /// failure at startup is fatal all the same.
    Continue,
}

impl Policy {
    /// Whether the error is fatal under the policy.
    pub open spec fn fatal(self, error: DriverError) -> bool {
        self == Policy::Halt || error.operation == Operation::Initialize
    }

    /// Whether the error is fatal under the policy.
    pub fn is_fatal(self, error: DriverError) -> (b: bool)
        ensures
            b == self.fatal(error),
    {
        self == Policy::Halt || error.operation == Operation::Initialize
    }
}

/// How far a run of the sender has come.
#[derive(Clone, Copy, Debug, PartialEq, Eq, Structural)]
pub enum SendPhase {
    /// No run is under way.
    Idle,
    /// The run waits for the transfer of the power setting to end.
    Power,
    /// The run waits for the transmission of the greeting to end.
    Payload,
}

/// What the caller is to do next in a run of the sender.
#[derive(Clone, Copy, Debug)]
pub enum SendAction {
    /// Nothing: the call did not belong to a run.
    Nothing,
    /// Write this power setting to the device, and report how it ended.
    WritePower(TxPower),
    /// Put this frame on the air, and report how it ended.
    Transmit(Frame),
    /// The run is over. The next one is due at this time, or is not armed
    /// where the timer queue did not take it.
    Finished(Option<u64>),
    /// Halt: the error is fatal.
    Halt(DriverError),
}

/// The due-time that a request for the sender's next run gets, if it is
/// granted.
pub open spec fn next_run(s: SchedulerModel) -> Option<u64> {
    match s.schedule_verdict(SENDER, SEND_PERIOD) {
        Ok(due) => Some(due),
        Err(_) => None,
    }
}

/// The node: the dispatcher, the indicator that the two tasks share, and
/// the radio.
pub struct Node {
    /// The count of the ticks of the hardware timer.
    pub counter: WideCounter,
    /// The dispatcher of the two tasks.
    pub scheduler: Scheduler,
    /// The level of the indicator pin.
    pub led: Shared<bool>,
    /// The driver of the radio.
    pub radio: RadioDriver,
    /// The policy on failed operations.
    pub policy: Policy,
    /// How far the run of the sender has come.
    pub phase: SendPhase,
}

impl Node {
    /// Validity of the node: its parts are valid, the dispatcher has the two
    /// tasks, the indicator is shared at their priority, and the radio works
    /// on what the sender's run waits for.
    pub open spec fn wf(&self) -> bool {
        &&& self.scheduler.wf()
        &&& self.radio.wf()
        &&& self.scheduler@.tasks.len() == 2
        &&& self.led.ceiling() == PRIORITY
        &&& match self.phase {
            SendPhase::Idle => true,
            SendPhase::Power => self.radio@.pending is Power,
            SendPhase::Payload => self.radio@.pending is Payload,
        }
    }

    /// The task table of the node: the button's task, bound to its interrupt
    /// source, and the sender's task.
    pub open spec fn task_table() -> Seq<TaskConfig> {
        seq![
            TaskConfig { priority: PRIORITY, source: Some(BUTTON_SOURCE) },
            TaskConfig { priority: PRIORITY, source: None },
        ]
    }

    /// Starts the node, from the answer of the radio to the identification
    /// handshake and the level of the indicator pin. Where the radio answered
    /// with its version, the node has its two tasks, the sender armed for its
    /// first run after one period, and the radio in standby at the carrier
    /// frequency. Else there is no node: the error is fatal.
    pub fn boot(handshake: Handshake, led: bool, policy: Policy) -> (r: Result<Node, DriverError>)
        ensures
            match RadioModel::handshake_error(handshake) {
                None => {
                    &&& r matches Ok(n)
                    &&& n.wf()
                    &&& n.scheduler@ == SchedulerModel::initial(
                        Node::task_table(),
                        1,
                    ).schedule_after(SENDER, SEND_PERIOD)
                    &&& n.scheduler@.tasks[SENDER as int].activation
                        == Activation::Armed(SEND_PERIOD)
                    &&& n.counter@ == 0
                    &&& n.counter.last() == 0
                    &&& n.led@ == led
                    &&& n.radio@ == RadioModel::started(CARRIER)
                    &&& n.policy == policy
                    &&& n.phase == SendPhase::Idle
                },
                Some(e) => r matches Err(f) && f == e,
            },
    {
        match RadioDriver::init(CARRIER, handshake) {
            Err(e) => Err(e),
            Ok(radio) => {
                let mut configs: Vec<TaskConfig> = Vec::new();
                configs.push(TaskConfig { priority: PRIORITY, source: Some(BUTTON_SOURCE) });
                configs.push(TaskConfig { priority: PRIORITY, source: None });
                assert(configs@ =~= Node::task_table());
                let mut scheduler: Scheduler = Scheduler::new(configs, 1);
                proof {
                    let m = scheduler@;
                    assert(!m.tasks[0].armed() && !m.tasks[1].armed());
                    reveal_with_fuel(armed_count, 3);
                    assert(m.armed() == 0);
                }
                let _ = scheduler.schedule_after(SENDER, send_period());
                let mut users: Vec<usize> = Vec::new();
                users.push(BUTTON);
                users.push(SENDER);
                let ceiling: u8 = scheduler.ceiling_of(&users);
                proof {
                    reveal_with_fuel(users_ceiling, 3);
                }
                Ok(
                    Node {
                        counter: WideCounter::new(0),
                        scheduler,
                        led: Shared::new(led, ceiling),
                        radio,
                        policy,
                        phase: SendPhase::Idle,
                    },
                )
            },
        }
    }

    /// Toggles the indicator inside a critical section, and answers with its
    /// new level.
    fn toggle(&mut self) -> (level: bool)
        requires
            old(self).wf(),
        ensures
            final(self).wf(),
            level == !old(self).led@,
            final(self).led@ == level,
            final(self).scheduler@ == old(self).scheduler@,
            final(self).radio@ == old(self).radio@,
            final(self).policy == old(self).policy,
            final(self).counter == old(self).counter,
            final(self).phase == old(self).phase,
    {
        let flip = |v: bool| -> (r: (bool, bool))
            ensures
                r == (!v, !v),
            { (!v, !v) };
        with_lock(&mut self.scheduler, &mut self.led, flip)
    }

    /// Takes a reading of the hardware timer: the count of its ticks goes on,
    /// over a wraparound of the timer too, and the dispatcher's clock follows
    /// it. The answer is the time by that clock.
    pub fn observe(&mut self, reading: u32) -> (now: u64)
        requires
            old(self).wf(),
        ensures
            final(self).wf(),
            final(self).counter.last() == reading,
            final(self).counter@ == if old(self).counter@ + elapsed(
                old(self).counter.last(),
                reading,
            ) <= u64::MAX {
                (old(self).counter@ + elapsed(old(self).counter.last(), reading)) as u64
            } else {
                u64::MAX
            },
            final(self).scheduler@ == old(self).scheduler@.advance(final(self).counter@),
            now == final(self).scheduler@.now,
            final(self).led@ == old(self).led@,
            final(self).radio@ == old(self).radio@,
            final(self).policy == old(self).policy,
            final(self).phase == old(self).phase,
    {
        let count: u64 = self.counter.observe(reading);
        self.scheduler.advance_clock(count);
        self.scheduler.now()
    }

    /// The level of the indicator, read inside a critical section. Nothing
    /// changes.
    pub fn indicator(&mut self) -> (level: bool)
        requires
            old(self).wf(),
        ensures
            final(self).wf(),
            level == old(self).led@,
            final(self).led@ == old(self).led@,
            final(self).scheduler@ == old(self).scheduler@,
            final(self).radio@ == old(self).radio@,
            final(self).policy == old(self).policy,
            final(self).counter == old(self).counter,
            final(self).phase == old(self).phase,
    {
        let look = |v: bool| -> (r: (bool, bool))
            ensures
                r == (v, v),
            { (v, v) };
        with_lock(&mut self.scheduler, &mut self.led, look)
    }

    /// The run of the button's task: toggles the indicator inside a critical
    /// section, and answers with the level to drive the pin to. Nothing else
    /// changes.
    pub fn on_button(&mut self) -> (level: bool)
        requires
            old(self).wf(),
        ensures
            final(self).wf(),
            level == !old(self).led@,
            final(self).led@ == level,
            final(self).scheduler@ == old(self).scheduler@,
            final(self).radio@ == old(self).radio@,
            final(self).policy == old(self).policy,
            final(self).counter == old(self).counter,
            final(self).phase == old(self).phase,
    {
        self.toggle()
    }

    /// Ends a run of the sender: asks for the next run after one period,
    /// whether or not the timer queue takes it.
    fn conclude(&mut self) -> (a: SendAction)
        requires
            old(self).wf(),
        ensures
            final(self).wf(),
            final(self).phase == SendPhase::Idle,
            (final(self).scheduler@, a) == ended(old(self).scheduler@, old(self).policy, None),
            final(self).led@ == old(self).led@,
            final(self).radio@ == old(self).radio@,
            final(self).policy == old(self).policy,
            final(self).counter == old(self).counter,
    {
        self.phase = SendPhase::Idle;
        proof {
            lemma_schedule(self.scheduler@, SENDER, SEND_PERIOD);
        }
        match self.scheduler.schedule_after(SENDER, send_period()) {
            Ok(due) => SendAction::Finished(Some(due)),
            Err(_) => SendAction::Finished(None),
        }
    }

    /// Ends a run of the sender in which an operation failed: halts where
    /// the error is fatal under the policy, and else goes on to the next run.
    fn fail(&mut self, error: DriverError) -> (a: SendAction)
        requires
            old(self).wf(),
        ensures
            final(self).wf(),
            final(self).phase == SendPhase::Idle,
            (final(self).scheduler@, a) == ended(
                old(self).scheduler@,
                old(self).policy,
                Some(error),
            ),
            final(self).led@ == old(self).led@,
            final(self).radio@ == old(self).radio@,
            final(self).policy == old(self).policy,
            final(self).counter == old(self).counter,
    {
        if self.policy.is_fatal(error) {
            self.phase = SendPhase::Idle;
            SendAction::Halt(error)
        } else {
            self.conclude()
        }
    }

    /// Begins a run of the sender: toggles the indicator inside a critical
    /// section, and asks the radio for the node's transmit power. Where the
    /// radio admits the setting, the caller is to write it to the device. Where
    /// it does not, the run ends as a failed one. Where a run is under way
    /// already, nothing happens.
    pub fn send_start(&mut self) -> (a: SendAction)
        requires
            old(self).wf(),
        ensures
            final(self).wf(),
            final(self).policy == old(self).policy,
            final(self).counter == old(self).counter,
            match old(self).phase {
                SendPhase::Idle => {
                    &&& final(self).led@ == !old(self).led@
                    &&& match old(self).radio@.power_error(TX_LEVEL, TX_PIN) {
                        None => {
                            &&& a == SendAction::WritePower(node_power())
                            &&& final(self).radio@ == (RadioModel {
                                pending: Pending::Power(node_power()),
                                ..old(self).radio@
                            })
                            &&& final(self).phase == SendPhase::Power
                            &&& final(self).scheduler@ == old(self).scheduler@
                        },
                        Some(cause) => {
                            &&& final(self).radio@ == old(self).radio@
                            &&& final(self).phase == SendPhase::Idle
                            &&& (final(self).scheduler@, a) == ended(
                                old(self).scheduler@,
                                old(self).policy,
                                Some(DriverError { operation: Operation::Configure, cause: cause }),
                            )
                        },
                    }
                },
                _ => {
                    &&& a == SendAction::Nothing
                    &&& final(self).led@ == old(self).led@
                    &&& final(self).radio@ == old(self).radio@
                    &&& final(self).scheduler@ == old(self).scheduler@
                    &&& final(self).phase == old(self).phase
                },
            },
    {
        if self.phase != SendPhase::Idle {
            return SendAction::Nothing;
        }
        self.toggle();
        match self.radio.set_tx_power(TX_LEVEL, TX_PIN) {
            Ok(power) => {
                self.phase = SendPhase::Power;
                SendAction::WritePower(power)
            },
            Err(e) => self.fail(e),
        }
    }

    /// Goes on with the run of the sender when a bus transfer has ended, well
    /// (`ok`) or not. After the power setting, the greeting is framed and the
    /// caller is to put the frame on the air. After the transmission, the run
    /// is over, and the next one is asked for. A transfer that failed ends the
    /// run as a failed one. Where no run is under way, nothing happens.
    pub fn send_bus_done(&mut self, ok: bool) -> (a: SendAction)
        requires
            old(self).wf(),
        ensures
            final(self).wf(),
            final(self).policy == old(self).policy,
            final(self).counter == old(self).counter,
            final(self).led@ == old(self).led@,
            match old(self).phase {
                SendPhase::Idle => {
                    &&& a == SendAction::Nothing
                    &&& final(self).radio@ == old(self).radio@
                    &&& final(self).scheduler@ == old(self).scheduler@
                    &&& final(self).phase == old(self).phase
                },
                SendPhase::Power => if ok {
                    &&& a matches SendAction::Transmit(frame) && frame@ == greeting()
                        && frame.spec_buffer()@ == padded(greeting())
                    &&& final(self).radio@ == old(self).radio@.concluded(true).framed(greeting())
                    &&& final(self).phase == SendPhase::Payload
                    &&& final(self).scheduler@ == old(self).scheduler@
                } else {
                    &&& final(self).radio@ == old(self).radio@.concluded(false)
                    &&& final(self).phase == SendPhase::Idle
                    &&& (final(self).scheduler@, a) == ended(
                        old(self).scheduler@,
                        old(self).policy,
                        Some(DriverError { operation: Operation::Configure, cause: Cause::Bus }),
                    )
                },
                SendPhase::Payload => {
                    &&& final(self).radio@ == old(self).radio@.concluded(ok)
                    &&& final(self).radio@.mode == RadioMode::Standby
                    &&& final(self).phase == SendPhase::Idle
                    &&& (final(self).scheduler@, a) == ended(
                        old(self).scheduler@,
                        old(self).policy,
                        if ok {
                            None
                        } else {
                            Some(DriverError { operation: Operation::Transmit, cause: Cause::Bus })
                        },
                    )
                },
            },
    {
        match self.phase {
            SendPhase::Idle => SendAction::Nothing,
            SendPhase::Power => {
                let done: Result<Done, DriverError> = self.radio.bus_done(ok);
                self.phase = SendPhase::Idle;
                match done {
                    Err(e) => self.fail(e),
                    Ok(_) => {
                        proof {
                            lemma_greeting();
                        }
                        match payload_of("Hello, world!") {
                            None => self.fail(
                                DriverError {
                                    operation: Operation::Transmit,
                                    cause: Cause::PayloadTooLong,
                                },
                            ),
                            Some((buffer, length)) => {
                                match self.radio.transmit_payload(buffer, length) {
                                    Ok(frame) => {
                                        self.phase = SendPhase::Payload;
                                        SendAction::Transmit(frame)
                                    },
                                    Err(e) => self.fail(e),
                                }
                            },
                        }
                    },
                }
            },
            SendPhase::Payload => {
                let done: Result<Done, DriverError> = self.radio.bus_done(ok);
                self.phase = SendPhase::Idle;
                match done {
                    Err(e) => self.fail(e),
                    Ok(_) => self.conclude(),
                }
            },
        }
    }
}

/// The transmit power of the node as a setting of the radio.
pub open spec fn node_power() -> TxPower {
    TxPower { level: TX_LEVEL as u8, pin: PaPin::PaBoost }
}

/// How a run of the sender ends. Where an operation failed and the error is
/// fatal under the policy, the caller is to halt, and the dispatcher is as it
/// was. Else the sender is asked to run again after one period, and the
/// caller learns the due-time, or that the timer queue did not take the
/// request.
pub open spec fn ended(before: SchedulerModel, policy: Policy, error: Option<DriverError>) -> (
    SchedulerModel,
    SendAction,
) {
    match error {
        Some(e) => if policy.fatal(e) {
            (before, SendAction::Halt(e))
        } else {
            (before.schedule_after(SENDER, SEND_PERIOD), SendAction::Finished(next_run(before)))
        },
        None => (
            before.schedule_after(SENDER, SEND_PERIOD),
            SendAction::Finished(next_run(before)),
        ),
    }
}

/// The greeting is thirteen bytes long.
pub proof fn lemma_greeting()
    ensures
        greeting().len() == 13,
        greeting() == seq![72u8, 101, 108, 108, 111, 44, 32, 119, 111, 114, 108, 100, 33],
{
    reveal_strlit("Hello, world!");
    broadcast use vstd::string::is_ascii_spec_bytes;
    let s = "Hello, world!";
    assert(vstd::string::is_ascii(s));
    assert(greeting() =~= seq![72u8, 101, 108, 108, 111, 44, 32, 119, 111, 114, 108, 100, 33]);
}

} // verus!
