//! The monotonic time base that the dispatcher schedules against.

use vstd::prelude::*;

verus! {

/// A free-running tick counter that never runs backwards.
pub struct MonotonicClock {
    ticks: u64,
}

impl MonotonicClock {
    /// The current reading, in ticks since start.
    pub closed spec fn view(&self) -> u64 {
        self.ticks
    }

    /// A clock that starts at tick zero.
    pub fn new() -> (clock: Self)
        ensures
            clock@ == 0,
    {
        MonotonicClock { ticks: 0 }
    }

    /// The current reading.
    pub fn now(&self) -> (t: u64)
        ensures
            t == self@,
    {
        self.ticks
    }

    /// Takes a new reading of the hardware counter. A reading that lies in the
    /// past is ignored, so the clock never runs backwards; the result says
    /// whether the reading was taken.
    pub fn advance_to(&mut self, reading: u64) -> (taken: bool)
        ensures
            taken == (reading >= old(self)@),
            final(self)@ == if reading >= old(self)@ { reading } else { old(self)@ },
            final(self)@ >= old(self)@,
    {
        if reading >= self.ticks {
            self.ticks = reading;
            true
        } else {
            false
        }
    }
}

/// The ticks that a 32-bit counter has counted between two of its readings,
/// of which the later one may lie behind a wraparound.
pub open spec fn elapsed(last: u32, reading: u32) -> int {
    if reading >= last {
        reading - last
    } else {
        reading + 0x1_0000_0000 - last
    }
}

/// A 64-bit count of the ticks of a 32-bit hardware counter: it carries the
/// count over the wraparounds of the counter, as long as the counter is read
/// at least once in each of its rounds.
pub struct WideCounter {
    total: u64,
    last: u32,
}

impl WideCounter {
    /// The ticks counted since start.
    pub closed spec fn view(&self) -> u64 {
        self.total
    }

    /// The latest reading of the hardware counter.
    pub closed spec fn last(&self) -> u32 {
        self.last
    }

    /// A count that starts at zero, at the given reading of the hardware
    /// counter.
    pub fn new(reading: u32) -> (counter: Self)
        ensures
            counter@ == 0,
            counter.last() == reading,
    {
        WideCounter { total: 0, last: reading }
    }

    /// The ticks counted since start.
    pub fn total(&self) -> (t: u64)
        ensures
            t == self@,
    {
        self.total
    }

    /// Takes a reading of the hardware counter and answers with the ticks
    /// counted since start: the count grows by what the counter has counted
    /// since its latest reading, and stays at the greatest 64-bit number
    /// where it would pass it.
    pub fn observe(&mut self, reading: u32) -> (now: u64)
        ensures
            now == final(self)@,
            final(self).last() == reading,
            final(self)@ >= old(self)@,
            final(self)@ == if old(self)@ + elapsed(old(self).last(), reading) <= u64::MAX {
                (old(self)@ + elapsed(old(self).last(), reading)) as u64
            } else {
                u64::MAX
            },
    {
        let step: u64 = if reading >= self.last {
            (reading - self.last) as u64
        } else {
            (u32::MAX - self.last) as u64 + reading as u64 + 1
        };
        self.last = reading;
        if step <= u64::MAX - self.total {
            self.total = self.total + step;
        } else {
            self.total = u64::MAX;
        }
        self.total
    }
}

/// The rate of the hardware timer, in ticks per second.
pub const TIMER_HZ: u32 = 48_000_000;

/// The longest time, in seconds, that the 32-bit hardware timer can count.
pub const TIMER_MAX_SECS: u32 = 89;

/// `fugit::ExtU32::secs` for a timer of `HZ` ticks per second, as
/// `stm32f4xx_hal` hands it on, and `fugit::Duration::ticks` on what it
/// returns: the number of timer ticks in `secs` seconds. The function
/// multiplies, in 32 bits, the number of seconds by the ticks per second, so
/// the product has to fit.
#[verifier::external_body]
fn timer_secs<const HZ: u32>(secs: u32) -> (ticks: u32)
    requires
        HZ > 0,
        secs * HZ <= u32::MAX,
    ensures
        ticks == secs * HZ,
{
    let span: stm32f4xx_hal::timer::monotonic::fugit::TimerDurationU32<HZ> =
        stm32f4xx_hal::timer::monotonic::ExtU32::secs(secs);
    span.ticks()
}

/// The number of timer ticks in `secs` seconds, where the hardware timer can
/// count that long, and nothing else.
pub fn ticks_of_secs(secs: u32) -> (ticks: Option<u64>)
    ensures
        ticks == if secs <= TIMER_MAX_SECS {
            Some((secs * TIMER_HZ) as u64)
        } else {
            None
        },
{
    if secs <= TIMER_MAX_SECS {
        assert(secs * TIMER_HZ <= u32::MAX) by (nonlinear_arith)
            requires
                secs <= 89,
                TIMER_HZ == 48_000_000,
        ;
        let ticks: u32 = timer_secs::<TIMER_HZ>(secs);
        Some(ticks as u64)
    } else {
        None
    }
}

} // verus!
