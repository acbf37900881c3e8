//! The protocol state of the packet-radio driver: operating modes, transmit
//! power, and the framing of payloads.
//!
//! The driver decides and keeps the books; the bus transfers are the
//! caller's. An operation checks its input and the mode, and hands back what
//! is to be put on the bus; the caller makes the transfer and reports how it
//! ended with [`RadioDriver::bus_done`].

use vstd::prelude::*;

verus! {

/// The size of the payload buffer, and the largest payload that the device
/// sends in one packet.
pub const MAX_PAYLOAD: usize = 255;

/// The silicon revision that the device reports in its identification
/// handshake.
pub const DEVICE_VERSION: u8 = 0x12;

/// The transmit power that the device has after reset, in dBm, on the
/// boosted pin.
pub const DEFAULT_POWER: u8 = 17;

/// The operating modes of the transceiver.
#[derive(Clone, Copy, Debug, PartialEq, Eq, Structural)]
pub enum RadioMode {
    /// Lowest power; the state after reset.
    Sleep,
    /// Idle and ready to be configured.
    Standby,
    /// Frequency synthesis for transmission.
    FsTx,
    /// Transmitting.
    Tx,
    /// Frequency synthesis for reception.
    FsRx,
    /// Receiving.
    Rx,
    /// Channel activity detection.
    Cad,
}

impl RadioMode {
    /// The transitions of the mode state machine: from sleep to standby and
    /// back, from standby into transmission, reception or channel activity
    /// detection, each through its steps, and from there back to standby.
    pub open spec fn allows(self, to: RadioMode) -> bool {
        match (self, to) {
            (RadioMode::Sleep, RadioMode::Standby) => true,
            (RadioMode::Standby, RadioMode::Sleep) => true,
            (RadioMode::Standby, RadioMode::FsTx) => true,
            (RadioMode::FsTx, RadioMode::Tx) => true,
            (RadioMode::Tx, RadioMode::Standby) => true,
            (RadioMode::Standby, RadioMode::FsRx) => true,
            (RadioMode::FsRx, RadioMode::Rx) => true,
            (RadioMode::Rx, RadioMode::Standby) => true,
            (RadioMode::Standby, RadioMode::Cad) => true,
            (RadioMode::Cad, RadioMode::Standby) => true,
            _ => false,
        }
    }

    /// Whether the state machine has a transition from this mode to `to`.
    pub fn can_enter(self, to: RadioMode) -> (b: bool)
        ensures
            b == self.allows(to),
    {
        match (self, to) {
            (RadioMode::Sleep, RadioMode::Standby) => true,
            (RadioMode::Standby, RadioMode::Sleep) => true,
            (RadioMode::Standby, RadioMode::FsTx) => true,
            (RadioMode::FsTx, RadioMode::Tx) => true,
            (RadioMode::Tx, RadioMode::Standby) => true,
            (RadioMode::Standby, RadioMode::FsRx) => true,
            (RadioMode::FsRx, RadioMode::Rx) => true,
            (RadioMode::Rx, RadioMode::Standby) => true,
            (RadioMode::Standby, RadioMode::Cad) => true,
            (RadioMode::Cad, RadioMode::Standby) => true,
            _ => false,
        }
    }
}

/// The amplifier pin that drives the antenna.
#[derive(Clone, Copy, Debug, PartialEq, Eq, Structural)]
pub enum PaPin {
    /// The regular output pin.
    Rfo,
    /// The boosted output pin.
    PaBoost,
}

impl PaPin {
    /// The pin that a selector names: 0 the regular pin, any other value the
    /// boosted one.
    pub open spec fn of(select: u8) -> PaPin {
        if select == 0 {
            PaPin::Rfo
        } else {
            PaPin::PaBoost
        }
    }

    /// The least power level of the pin, in dBm.
    pub open spec fn min_level(self) -> int {
        match self {
            PaPin::Rfo => 0,
            PaPin::PaBoost => 2,
        }
    }

    /// The greatest power level of the pin, in dBm.
    pub open spec fn max_level(self) -> int {
        match self {
            PaPin::Rfo => 14,
            PaPin::PaBoost => 20,
        }
    }

    /// The selector of the pin.
    pub fn select(self) -> (s: u8)
        ensures
            PaPin::of(s) == self,
            s == 0 || s == 1,
    {
        match self {
            PaPin::Rfo => 0,
            PaPin::PaBoost => 1,
        }
    }
}

/// A transmit power setting that the device can take.
#[derive(Clone, Copy, Debug, PartialEq, Eq, Structural)]
pub struct TxPower {
    /// The power level, in dBm.
    pub level: u8,
    /// The pin that the power is put out on.
    pub pin: PaPin,
}

impl TxPower {
    /// The level lies in the range of the pin.
    pub open spec fn valid(self) -> bool {
        self.pin.min_level() <= self.level <= self.pin.max_level()
    }

    /// Whether `level` lies in the range of the pin that `pin_select` names.
    pub open spec fn in_range(level: i32, pin_select: u8) -> bool {
        PaPin::of(pin_select).min_level() <= level <= PaPin::of(pin_select).max_level()
    }

    /// The setting for a level and a pin selector, where the level lies in
    /// the range of the pin: 0 to 14 dBm on the regular pin, 2 to 20 dBm on
    /// the boosted one.
    pub fn new(level: i32, pin_select: u8) -> (r: Option<TxPower>)
        ensures
            r is Some <==> TxPower::in_range(level, pin_select),
            r matches Some(p) ==> p.level == level && p.pin == PaPin::of(pin_select) && p.valid(),
    {
        let pin: PaPin = if pin_select == 0 {
            PaPin::Rfo
        } else {
            PaPin::PaBoost
        };
        let (low, high): (i32, i32) = match pin {
            PaPin::Rfo => (0, 14),
            PaPin::PaBoost => (2, 20),
        };
        if low <= level && level <= high {
            Some(TxPower { level: level as u8, pin })
        } else {
            None
        }
    }
}

/// A payload framed for transmission: the buffer and how much of it is sent.
#[derive(Clone, Copy, Debug)]
pub struct Frame {
    buffer: [u8; 255],
    length: usize,
}

impl Frame {
    /// The bytes that go over the air.
    pub closed spec fn view(&self) -> Seq<u8> {
        self.buffer@.take(self.length as int)
    }

    /// The buffer that holds the payload.
    pub closed spec fn spec_buffer(&self) -> [u8; 255] {
        self.buffer
    }

    /// The frame of the first `length` bytes of `buffer`, where the buffer
    /// holds that many.
    pub fn new(buffer: [u8; 255], length: usize) -> (r: Option<Frame>)
        ensures
            r is Some <==> length <= MAX_PAYLOAD,
            r matches Some(f) ==> f@ == buffer@.take(length as int) && f@.len() == length
                && f.spec_buffer() == buffer,
    {
        if length <= MAX_PAYLOAD {
            Some(Frame { buffer, length })
        } else {
            None
        }
    }

    /// The number of bytes that go over the air.
    pub fn len(&self) -> (n: usize)
        ensures
            n == self@.len(),
            n <= MAX_PAYLOAD,
    {
        proof {
            use_type_invariant(self);
        }
        self.length
    }

    /// The buffer that holds the payload, as the device takes it.
    pub fn buffer(&self) -> (b: [u8; 255])
        ensures
            b == self.spec_buffer(),
            b@.take(self@.len() as int) == self@,
    {
        proof {
            use_type_invariant(self);
        }
        self.buffer
    }

    /// The byte at place `i` of the frame.
    pub fn byte(&self, i: usize) -> (b: Option<u8>)
        ensures
            b == if i < self@.len() {
                Some(self@[i as int])
            } else {
                None
            },
    {
        proof {
            use_type_invariant(self);
        }
        if i < self.length {
            Some(self.buffer[i])
        } else {
            None
        }
    }

    #[verifier::type_invariant]
    spec fn bounded(self) -> bool {
        self.length <= 255
    }
}

/// What the device answered to the identification handshake at startup.
#[derive(Clone, Copy, Debug, PartialEq, Eq, Structural)]
pub enum Handshake {
    /// The bus transfer failed: the device did not answer.
    NoResponse,
    /// The device answered with this version.
    Version(u8),
}

/// The operation in which a driver error came up. It is the error's class:
/// startup, configuration or transmission.
#[derive(Clone, Copy, Debug, PartialEq, Eq, Structural)]
pub enum Operation {
    /// Bringing the device up.
    Initialize,
    /// Setting the mode or the transmit power.
    Configure,
    /// Sending a payload.
    Transmit,
}

/// Why an operation of the driver failed.
#[derive(Clone, Copy, Debug, PartialEq, Eq, Structural)]
pub enum Cause {
    /// The device did not answer the handshake.
    NoResponse,
    /// The device answered the handshake with another version.
    VersionMismatch(u8),
    /// The power level is outside the range of the pin.
    LevelOutOfRange,
    /// The payload is longer than the device sends in one packet.
    PayloadTooLong,
    /// The mode does not admit the operation.
    NotReady,
    /// An earlier operation still waits for its bus transfer to end.
    Busy,
    /// The bus transfer failed.
    Bus,
}

/// An error of the driver. The caller may recover from it: the driver is
/// left in a defined state.
#[derive(Clone, Copy, Debug, PartialEq, Eq, Structural)]
pub struct DriverError {
    /// The operation that failed.
    pub operation: Operation,
    /// Why it failed.
    pub cause: Cause,
}

/// The operation whose bus transfer is under way.
#[derive(Clone, Copy, Debug, PartialEq, Eq, Structural)]
pub enum Pending {
    /// None is.
    Nothing,
    /// A change of mode to this one.
    Mode(RadioMode),
    /// A change of the transmit power to this setting.
    Power(TxPower),
    /// The transmission of a payload of this many bytes.
    Payload(usize),
}

/// What a bus transfer that ended well has achieved.
#[derive(Clone, Copy, Debug, PartialEq, Eq, Structural)]
pub enum Done {
    /// No operation was under way.
    Nothing,
    /// The device is in this mode.
    ModeSet(RadioMode),
    /// The device transmits with this power.
    PowerSet(TxPower),
    /// The device has sent this many bytes.
    Sent(usize),
}

/// The state of the driver.
pub struct RadioModel {
    /// The operating mode.
    pub mode: RadioMode,
    /// The carrier frequency, in MHz.
    pub frequency: i64,
    /// The transmit power.
    pub power: TxPower,
    /// The payload that was framed last.
    pub payload: Seq<u8>,
    /// The operation whose bus transfer is under way.
    pub pending: Pending,
}

impl RadioModel {
    /// Validity of a state: the device transmits exactly while the transfer
    /// of a payload is under way, a configuration is under way only in
    /// standby, and the power setting and the payload are within the
    /// device's limits.
    pub open spec fn wf(self) -> bool {
        &&& self.power.valid()
        &&& self.payload.len() <= MAX_PAYLOAD
        &&& self.mode == RadioMode::Sleep || self.mode == RadioMode::Standby || self.mode
            == RadioMode::Tx
        &&& match self.pending {
            Pending::Nothing => self.mode != RadioMode::Tx,
            Pending::Mode(to) => self.mode != RadioMode::Tx && self.mode.allows(to) && (to
                == RadioMode::Sleep || to == RadioMode::Standby),
            Pending::Power(p) => self.mode == RadioMode::Standby && p.valid(),
            Pending::Payload(n) => self.mode == RadioMode::Tx && n == self.payload.len(),
        }
    }

    /// The state after startup: in standby, with the power that the device
    /// has after reset, and nothing framed.
    pub open spec fn started(frequency: i64) -> RadioModel {
        RadioModel {
            mode: RadioMode::Standby,
            frequency: frequency,
            power: TxPower { level: DEFAULT_POWER, pin: PaPin::PaBoost },
            payload: Seq::empty(),
            pending: Pending::Nothing,
        }
    }

    /// The answer to a handshake: nothing where the device answered with its
    /// version, else the error.
    pub open spec fn handshake_error(handshake: Handshake) -> Option<DriverError> {
        match handshake {
            Handshake::NoResponse => Some(
                DriverError { operation: Operation::Initialize, cause: Cause::NoResponse },
            ),
            Handshake::Version(v) => if v == DEVICE_VERSION {
                None
            } else {
                Some(
                    DriverError {
                        operation: Operation::Initialize,
                        cause: Cause::VersionMismatch(v),
                    },
                )
            },
        }
    }

    /// Why a change of mode to `to` is turned down, if it is: an operation is
    /// under way, or the state machine has no such transition, or the mode is
    /// one that only an operation enters.
    pub open spec fn mode_error(self, to: RadioMode) -> Option<Cause> {
        if self.pending != Pending::Nothing {
            Some(Cause::Busy)
        } else if !self.mode.allows(to) || (to != RadioMode::Sleep && to != RadioMode::Standby) {
            Some(Cause::NotReady)
        } else {
            None
        }
    }

    /// Why a power setting is turned down, if it is: the level is out of the
    /// pin's range, an operation is under way, or the device is not in
    /// standby.
    pub open spec fn power_error(self, level: i32, pin_select: u8) -> Option<Cause> {
        if !TxPower::in_range(level, pin_select) {
            Some(Cause::LevelOutOfRange)
        } else if self.pending != Pending::Nothing {
            Some(Cause::Busy)
        } else if self.mode != RadioMode::Standby {
            Some(Cause::NotReady)
        } else {
            None
        }
    }

    /// Why a payload is turned down, if it is: it is longer than the device
    /// sends, an operation is under way, or the device is not in standby.
    pub open spec fn payload_error(self, length: usize) -> Option<Cause> {
        if length > MAX_PAYLOAD {
            Some(Cause::PayloadTooLong)
        } else if self.pending != Pending::Nothing {
            Some(Cause::Busy)
        } else if self.mode != RadioMode::Standby {
            Some(Cause::NotReady)
        } else {
            None
        }
    }

    /// The state once a payload is framed and its transmission has begun: the
    /// device transmits, and the transfer of the payload is under way.
    pub open spec fn framed(self, payload: Seq<u8>) -> RadioModel {
        RadioModel {
            mode: RadioMode::Tx,
            payload: payload,
            pending: Pending::Payload(payload.len() as usize),
            ..self
        }
    }

    /// The state once the bus transfer of the pending operation has ended:
    /// nothing is pending. A change of mode or power has taken effect where
    /// the transfer went well; after a transmission the device is back in
    /// standby, however the transfer went.
    pub open spec fn concluded(self, ok: bool) -> RadioModel {
        match self.pending {
            Pending::Nothing => self,
            Pending::Mode(to) => RadioModel {
                mode: if ok {
                    to
                } else {
                    self.mode
                },
                pending: Pending::Nothing,
                ..self
            },
            Pending::Power(p) => RadioModel {
                power: if ok {
                    p
                } else {
                    self.power
                },
                pending: Pending::Nothing,
                ..self
            },
            Pending::Payload(_) => RadioModel {
                mode: RadioMode::Standby,
                pending: Pending::Nothing,
                ..self
            },
        }
    }

    /// What the end of the bus transfer of the pending operation means to the
    /// caller: what was achieved, or the bus error under the operation's
    /// class.
    pub open spec fn conclusion(self, ok: bool) -> Result<Done, DriverError> {
        match self.pending {
            Pending::Nothing => Ok(Done::Nothing),
            Pending::Mode(to) => if ok {
                Ok(Done::ModeSet(to))
            } else {
                Err(DriverError { operation: Operation::Configure, cause: Cause::Bus })
            },
            Pending::Power(p) => if ok {
                Ok(Done::PowerSet(p))
            } else {
                Err(DriverError { operation: Operation::Configure, cause: Cause::Bus })
            },
            Pending::Payload(n) => if ok {
                Ok(Done::Sent(n))
            } else {
                Err(DriverError { operation: Operation::Transmit, cause: Cause::Bus })
            },
        }
    }
}

/// The driver of the packet-radio transceiver.
pub struct RadioDriver {
    mode: RadioMode,
    frequency: i64,
    power: TxPower,
    frame: Frame,
    pending: Pending,
}

impl RadioDriver {
    /// The state of the driver.
    pub closed spec fn view(&self) -> RadioModel {
        RadioModel {
            mode: self.mode,
            frequency: self.frequency,
            power: self.power,
            payload: self.frame@,
            pending: self.pending,
        }
    }

    /// Validity of the driver's state.
    pub open spec fn wf(&self) -> bool {
        self@.wf()
    }

    /// Brings the driver up after the reset of the device, from the answer to
    /// the identification handshake. Where the device answered with its
    /// version, the driver is in standby at the given carrier frequency (in
    /// MHz). Where it did not answer, or answered with another version, there
    /// is no driver: the radio cannot be used.
    pub fn init(frequency: i64, handshake: Handshake) -> (r: Result<RadioDriver, DriverError>)
        ensures
            match RadioModel::handshake_error(handshake) {
                None => r matches Ok(d) && d@ == RadioModel::started(frequency) && d.wf(),
                Some(e) => r == Err::<RadioDriver, DriverError>(e),
            },
    {
        match handshake {
            Handshake::NoResponse => Err(
                DriverError { operation: Operation::Initialize, cause: Cause::NoResponse },
            ),
            Handshake::Version(v) => {
                if v == DEVICE_VERSION {
                    let buffer: [u8; 255] = [0u8; 255];
                    let frame: Frame = Frame { buffer, length: 0 };
                    let mut driver = RadioDriver {
                        mode: RadioMode::Sleep,
                        frequency,
                        power: TxPower { level: DEFAULT_POWER, pin: PaPin::PaBoost },
                        frame,
                        pending: Pending::Nothing,
                    };
                    driver.enter(RadioMode::Standby);
                    assert(driver@.payload =~= Seq::<u8>::empty());
                    Ok(driver)
                } else {
                    Err(
                        DriverError {
                            operation: Operation::Initialize,
                            cause: Cause::VersionMismatch(v),
                        },
                    )
                }
            },
        }
    }

    /// Takes a transition of the mode state machine.
    fn enter(&mut self, to: RadioMode)
        requires
            old(self).mode.allows(to),
        ensures
            final(self).mode == to,
            final(self).frequency == old(self).frequency,
            final(self).power == old(self).power,
            final(self).frame == old(self).frame,
            final(self).pending == old(self).pending,
    {
        self.mode = to;
    }

    /// The operating mode.
    pub fn mode(&self) -> (m: RadioMode)
        ensures
            m == self@.mode,
    {
        self.mode
    }

    /// The carrier frequency, in MHz.
    pub fn frequency(&self) -> (f: i64)
        ensures
            f == self@.frequency,
    {
        self.frequency
    }

    /// The transmit power.
    pub fn power(&self) -> (p: TxPower)
        ensures
            p == self@.power,
    {
        self.power
    }

    /// The operation whose bus transfer is under way.
    pub fn pending(&self) -> (p: Pending)
        ensures
            p == self@.pending,
    {
        self.pending
    }

    /// Asks for a change of mode, to sleep or to standby. Where the change is
    /// admitted, the mode is handed back for the caller to write to the
    /// device, and takes effect when the transfer has ended well. Else
    /// nothing changes.
    pub fn set_mode(&mut self, to: RadioMode) -> (r: Result<RadioMode, DriverError>)
        requires
            old(self).wf(),
        ensures
            final(self).wf(),
            match old(self)@.mode_error(to) {
                None => r == Ok::<RadioMode, DriverError>(to) && final(self)@ == (RadioModel {
                    pending: Pending::Mode(to),
                    ..old(self)@
                }),
                Some(cause) => r == Err::<RadioMode, DriverError>(
                    DriverError { operation: Operation::Configure, cause: cause },
                ) && final(self)@ == old(self)@,
            },
    {
        if self.pending != Pending::Nothing {
            return Err(DriverError { operation: Operation::Configure, cause: Cause::Busy });
        }
        if !self.mode.can_enter(to) || (to != RadioMode::Sleep && to != RadioMode::Standby) {
            return Err(DriverError { operation: Operation::Configure, cause: Cause::NotReady });
        }
        self.pending = Pending::Mode(to);
        Ok(to)
    }

    /// Asks for a transmit power: `level` in dBm on the pin that `pin_select`
    /// names (0 the regular pin, else the boosted one). Where the level lies
    /// in the range of the pin and the device is in standby with no operation
    /// under way, the setting is handed back for the caller to write to the
    /// device, and takes effect when the transfer has ended well. Else the
    /// answer is a configuration error and nothing changes.
    pub fn set_tx_power(&mut self, level: i32, pin_select: u8) -> (r: Result<TxPower, DriverError>)
        requires
            old(self).wf(),
        ensures
            final(self).wf(),
            match old(self)@.power_error(level, pin_select) {
                None => r matches Ok(p) && p.level == level && p.pin == PaPin::of(pin_select)
                    && final(self)@ == (RadioModel { pending: Pending::Power(p), ..old(self)@ }),
                Some(cause) => r == Err::<TxPower, DriverError>(
                    DriverError { operation: Operation::Configure, cause: cause },
                ) && final(self)@ == old(self)@,
            },
    {
        match TxPower::new(level, pin_select) {
            None => Err(
                DriverError { operation: Operation::Configure, cause: Cause::LevelOutOfRange },
            ),
            Some(p) => {
                if self.pending != Pending::Nothing {
                    return Err(
                        DriverError { operation: Operation::Configure, cause: Cause::Busy },
                    );
                }
                if self.mode != RadioMode::Standby {
                    return Err(
                        DriverError { operation: Operation::Configure, cause: Cause::NotReady },
                    );
                }
                self.pending = Pending::Power(p);
                Ok(p)
            },
        }
    }

    /// Frames the first `length` bytes of `buffer` and begins their
    /// transmission. Where the payload is no longer than the device sends,
    /// and the device is in standby with no operation under way, the device
    /// goes through frequency synthesis into transmission, and the frame,
    /// which holds exactly those bytes, unchanged, is handed back for the
    /// caller to put on the bus. Else the answer is a transmission error,
    /// nothing is framed and nothing changes. The driver sets no timeout: it
    /// stays in transmission until the caller reports the end of the
    /// transfer.
    pub fn transmit_payload(&mut self, buffer: [u8; 255], length: usize) -> (r: Result<
        Frame,
        DriverError,
    >)
        requires
            old(self).wf(),
        ensures
            final(self).wf(),
            match old(self)@.payload_error(length) {
                None => r matches Ok(frame) && frame@ == buffer@.take(length as int)
                    && frame.spec_buffer() == buffer && final(self)@ == old(self)@.framed(
                    buffer@.take(length as int),
                ),
                Some(cause) => r == Err::<Frame, DriverError>(
                    DriverError { operation: Operation::Transmit, cause: cause },
                ) && final(self)@ == old(self)@,
            },
    {
        match Frame::new(buffer, length) {
            None => Err(
                DriverError { operation: Operation::Transmit, cause: Cause::PayloadTooLong },
            ),
            Some(frame) => {
                if self.pending != Pending::Nothing {
                    return Err(
                        DriverError { operation: Operation::Transmit, cause: Cause::Busy },
                    );
                }
                if self.mode != RadioMode::Standby {
                    return Err(
                        DriverError { operation: Operation::Transmit, cause: Cause::NotReady },
                    );
                }
                self.enter(RadioMode::FsTx);
                self.enter(RadioMode::Tx);
                self.frame = frame;
                self.pending = Pending::Payload(length);
                Ok(frame)
            },
        }
    }

    /// Concludes the pending operation when its bus transfer has ended, well
    /// (`ok`) or not. A change of mode or power takes effect where the
    /// transfer went well. After a transmission the device is back in standby
    /// either way. The answer is what was achieved, or the bus error under
    /// the operation's class.
    pub fn bus_done(&mut self, ok: bool) -> (r: Result<Done, DriverError>)
        requires
            old(self).wf(),
        ensures
            final(self).wf(),
            final(self)@ == old(self)@.concluded(ok),
            r == old(self)@.conclusion(ok),
    {
        let pending: Pending = self.pending;
        self.pending = Pending::Nothing;
        match pending {
            Pending::Nothing => Ok(Done::Nothing),
            Pending::Mode(to) => {
                if ok {
                    self.enter(to);
                    Ok(Done::ModeSet(to))
                } else {
                    Err(DriverError { operation: Operation::Configure, cause: Cause::Bus })
                }
            },
            Pending::Power(p) => {
                if ok {
                    self.power = p;
                    Ok(Done::PowerSet(p))
                } else {
                    Err(DriverError { operation: Operation::Configure, cause: Cause::Bus })
                }
            },
            Pending::Payload(n) => {
                self.enter(RadioMode::Standby);
                if ok {
                    Ok(Done::Sent(n))
                } else {
                    Err(DriverError { operation: Operation::Transmit, cause: Cause::Bus })
                }
            },
        }
    }
}

} // verus!
