//! Monotonic time from a counter that wraps.
//!
//! The hardware counter is narrow and free-running. All that is known of it
//! is how often it has wrapped: an interrupt says so each time. Time is read
//! off that count alone. The counter's live value is left out on purpose: it
//! cannot be read together with the count without a race, and a reading
//! that is one period coarse is better than one that can jump backwards.

use vstd::arithmetic::div_mod::lemma_div_is_ordered;
use vstd::prelude::*;

verus! {

/// The rate of the time that [`RenesasDriver::now`] reports, in ticks per
/// second: microseconds.
pub const TICK_HZ: u32 = 1_000_000;

/// How many ticks the counter takes from one wrap to the next: it is
/// sixteen bits wide.
pub const COUNTER_WIDTH: u32 = 65_536;

/// The event that the counter raises when it wraps.
pub const UNDERFLOW_EVENT: u16 = 0x040;

/// Why no time could be given.
#[derive(Clone, Copy, Debug, PartialEq, Eq)]
pub enum TimeError {
    /// The counter's frequency is zero: it is not running, or was never set.
    NotRunning,
    /// The time does not fit in 64 bits.
    OutOfRange,
}

/// The time that `period` wraps of a counter running at `frequency` ticks
/// per second stand for, in units of which `unit_rate` make a second,
/// rounded down.
pub open spec fn spec_elapsed(period: nat, frequency: nat, unit_rate: nat) -> int {
    (period * COUNTER_WIDTH * unit_rate) / (frequency as int)
}

/// The time that `period` wraps of a counter running at `frequency` ticks
/// per second stand for, in units of which `unit_rate` make a second,
/// rounded down. There is no such time for a counter that does not run, nor
/// where the number does not fit.
pub fn elapsed(period: u32, frequency: u32, unit_rate: u32) -> (time: Result<u64, TimeError>)
    ensures
        frequency == 0 ==> time == Err::<u64, TimeError>(TimeError::NotRunning),
        frequency != 0 && spec_elapsed(period as nat, frequency as nat, unit_rate as nat)
            > u64::MAX ==> time == Err::<u64, TimeError>(TimeError::OutOfRange),
        frequency != 0 && spec_elapsed(period as nat, frequency as nat, unit_rate as nat)
            <= u64::MAX ==> time == Ok::<u64, TimeError>(
            spec_elapsed(period as nat, frequency as nat, unit_rate as nat) as u64,
        ),
{
    if frequency == 0 {
        return Err(TimeError::NotRunning);
    }
    assert(period * COUNTER_WIDTH <= 0x1_0000_0000_0000) by (nonlinear_arith)
        requires
            period <= 0xFFFF_FFFF,
            COUNTER_WIDTH == 0x1_0000,
    ;
    let ticks: u128 = (period as u128) * (COUNTER_WIDTH as u128);
    assert(ticks * unit_rate <= 0x1_0000_0000_0000 * 0x1_0000_0000) by (nonlinear_arith)
        requires
            ticks <= 0x1_0000_0000_0000,
            unit_rate <= 0x1_0000_0000,
    ;
    let scaled: u128 = ticks * (unit_rate as u128);
    let whole: u128 = scaled / (frequency as u128);
    if whole > u64::MAX as u128 {
        Err(TimeError::OutOfRange)
    } else {
        Ok(whole as u64)
    }
}

/// The state of the time driver: how often the counter has wrapped, and how
/// fast it counts.
pub struct RenesasDriver {
    period: u32,
    frequency: u32,
}

/// The time driver as a mathematical value.
pub struct DriverState {
    /// How often the counter has wrapped.
    pub period: nat,
    /// The counter's ticks per second.
    pub frequency: nat,
}

impl View for RenesasDriver {
    type V = DriverState;

    closed spec fn view(&self) -> DriverState {
        DriverState { period: self.period as nat, frequency: self.frequency as nat }
    }
}

/// The time that a driver in state `s` reports, in microseconds.
pub open spec fn spec_now(s: DriverState) -> int {
    spec_elapsed(s.period, s.frequency, TICK_HZ as nat)
}

impl RenesasDriver {
    /// The driver of a counter that runs at `clock_freq` ticks per second
    /// and has not wrapped yet.
    pub fn init(clock_freq: u32) -> (driver: Self)
        ensures
            driver@ == (DriverState { period: 0, frequency: clock_freq as nat }),
    {
        RenesasDriver { period: 0, frequency: clock_freq }
    }

    /// How often the counter has wrapped.
    pub fn period(&self) -> (period: u32)
        ensures
            period == self@.period,
    {
        self.period
    }

    /// The counter's ticks per second.
    pub fn frequency(&self) -> (frequency: u32)
        ensures
            frequency == self@.frequency,
    {
        self.frequency
    }

    /// Whether the count of wraps can still grow.
    pub fn can_wrap(&self) -> (can: bool)
        ensures
            can == (self@.period < u32::MAX),
    {
        self.period < u32::MAX
    }

    /// Records that the counter has wrapped once more. This is all that the
    /// wrap interrupt does to the driver.
    pub fn on_wrap(&mut self)
        requires
            old(self)@.period < u32::MAX,
        ensures
            final(self)@ == (DriverState {
                period: old(self)@.period + 1,
                frequency: old(self)@.frequency,
            }),
    {
        self.period = self.period + 1;
    }

    /// The time since the driver was set up, in microseconds: the wraps
    /// counted, times the ticks of one period, scaled from the counter's
    /// frequency to microseconds and rounded down.
    pub fn now(&self) -> (time: Result<u64, TimeError>)
        ensures
            self@.frequency == 0 ==> time == Err::<u64, TimeError>(TimeError::NotRunning),
            self@.frequency != 0 && spec_now(self@) > u64::MAX ==> time == Err::<u64, TimeError>(
                TimeError::OutOfRange,
            ),
            self@.frequency != 0 && spec_now(self@) <= u64::MAX ==> time == Ok::<u64, TimeError>(
                spec_now(self@) as u64,
            ),
    {
        elapsed(self.period, self.frequency, TICK_HZ)
    }
}

/// A clock that reads the time off a driver.
#[derive(Default)]
pub struct RenesasClock;

impl RenesasClock {
    /// The time now, in microseconds, as the driver has it.
    pub fn try_now(&self, driver: &RenesasDriver) -> (time: Result<u64, TimeError>)
        ensures
            driver@.frequency == 0 ==> time == Err::<u64, TimeError>(TimeError::NotRunning),
            driver@.frequency != 0 && spec_now(driver@) > u64::MAX ==> time == Err::<
                u64,
                TimeError,
            >(TimeError::OutOfRange),
            driver@.frequency != 0 && spec_now(driver@) <= u64::MAX ==> time == Ok::<
                u64,
                TimeError,
            >(spec_now(driver@) as u64),
    {
        driver.now()
    }
}

/// Time never runs backwards: however many wraps are counted between two
/// readings, the later reading is not smaller than the earlier one.
pub proof fn law_time_is_monotonic(earlier: nat, later: nat, frequency: nat, unit_rate: nat)
    requires
        earlier <= later,
        frequency > 0,
    ensures
        spec_elapsed(earlier, frequency, unit_rate) <= spec_elapsed(later, frequency, unit_rate),
        0 <= spec_elapsed(earlier, frequency, unit_rate),
{
    let a = earlier * COUNTER_WIDTH * unit_rate;
    let b = later * COUNTER_WIDTH * unit_rate;
    assert(0 <= a <= b) by (nonlinear_arith)
        requires
            earlier <= later,
            a == earlier * COUNTER_WIDTH * unit_rate,
            b == later * COUNTER_WIDTH * unit_rate,
    ;
    lemma_div_is_ordered(a, b, frequency as int);
    lemma_div_is_ordered(0, a, frequency as int);
}

/// One more wrap never makes the reported time smaller.
pub proof fn law_wrap_advances_time(s: DriverState)
    requires
        s.frequency > 0,
    ensures
        spec_now(s) <= spec_now(DriverState { period: s.period + 1, frequency: s.frequency }),
{
    law_time_is_monotonic(s.period, s.period + 1, s.frequency, TICK_HZ as nat);
}

} // verus!
