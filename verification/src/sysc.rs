//! The clock generation circuit: sources, dividers, and the frequency they
//! give.

use vstd::prelude::*;

verus! {

/// Where the system clock comes from.
#[derive(Clone, Copy, Debug, PartialEq, Eq)]
pub enum ClockSource {
    /// High-speed on-chip oscillator.
    HOCO,
    /// Medium-speed on-chip oscillator.
    MOCO,
    /// Low-speed on-chip oscillator.
    LOCO,
    /// Main clock oscillator.
    MainClockOsc,
    /// Sub-clock oscillator.
    SubClockOsc,
    /// Phase-locked loop.
    PLL,
}

impl ClockSource {
    /// The code that selects the source.
    pub open spec fn spec_code(self) -> u8 {
        match self {
            ClockSource::HOCO => 0u8,
            ClockSource::MOCO => 1u8,
            ClockSource::LOCO => 2u8,
            ClockSource::MainClockOsc => 3u8,
            ClockSource::SubClockOsc => 4u8,
            ClockSource::PLL => 5u8,
        }
    }

    /// The code that selects the source.
    pub fn code(self) -> (code: u8)
        ensures
            code == self.spec_code(),
    {
        match self {
            ClockSource::HOCO => 0,
            ClockSource::MOCO => 1,
            ClockSource::LOCO => 2,
            ClockSource::MainClockOsc => 3,
            ClockSource::SubClockOsc => 4,
            ClockSource::PLL => 5,
        }
    }

    /// The source that a code selects, if it selects one.
    pub fn from_code(code: u8) -> (source: Option<ClockSource>)
        ensures
            code <= 5 <==> source is Some,
            source matches Some(s) ==> s.spec_code() == code,
    {
        match code {
            0 => Some(ClockSource::HOCO),
            1 => Some(ClockSource::MOCO),
            2 => Some(ClockSource::LOCO),
            3 => Some(ClockSource::MainClockOsc),
            4 => Some(ClockSource::SubClockOsc),
            5 => Some(ClockSource::PLL),
            _ => None,
        }
    }
}

/// By how much a clock is divided: a power of two.
#[derive(Clone, Copy, Debug, PartialEq, Eq)]
pub enum ClockDividers {
    Div1,
    Div2,
    Div4,
    Div8,
    Div16,
    Div32,
}

impl ClockDividers {
    /// The divider's code: the exponent of its power of two.
    pub open spec fn spec_code(self) -> u8 {
        match self {
            ClockDividers::Div1 => 0u8,
            ClockDividers::Div2 => 1u8,
            ClockDividers::Div4 => 2u8,
            ClockDividers::Div8 => 3u8,
            ClockDividers::Div16 => 4u8,
            ClockDividers::Div32 => 5u8,
        }
    }

    /// The number that the divider divides by.
    pub open spec fn spec_divisor(self) -> u32 {
        match self {
            ClockDividers::Div1 => 1u32,
            ClockDividers::Div2 => 2u32,
            ClockDividers::Div4 => 4u32,
            ClockDividers::Div8 => 8u32,
            ClockDividers::Div16 => 16u32,
            ClockDividers::Div32 => 32u32,
        }
    }

    /// The divider's code: the exponent of its power of two.
    pub fn code(self) -> (code: u8)
        ensures
            code == self.spec_code(),
    {
        match self {
            ClockDividers::Div1 => 0,
            ClockDividers::Div2 => 1,
            ClockDividers::Div4 => 2,
            ClockDividers::Div8 => 3,
            ClockDividers::Div16 => 4,
            ClockDividers::Div32 => 5,
        }
    }

    /// The number that the divider divides by.
    pub fn divisor(self) -> (divisor: u32)
        ensures
            divisor == self.spec_divisor(),
            divisor == 1u32 << (self.spec_code() as u32),
    {
        assert(1u32 << 0u32 == 1 && 1u32 << 1u32 == 2 && 1u32 << 2u32 == 4 && 1u32 << 3u32 == 8
            && 1u32 << 4u32 == 16 && 1u32 << 5u32 == 32) by (bit_vector);
        match self {
            ClockDividers::Div1 => 1,
            ClockDividers::Div2 => 2,
            ClockDividers::Div4 => 4,
            ClockDividers::Div8 => 8,
            ClockDividers::Div16 => 16,
            ClockDividers::Div32 => 32,
        }
    }

    /// The divider that a code stands for, if it stands for one.
    pub fn from_code(code: u8) -> (divider: Option<ClockDividers>)
        ensures
            code <= 5 <==> divider is Some,
            divider matches Some(d) ==> d.spec_code() == code,
    {
        match code {
            0 => Some(ClockDividers::Div1),
            1 => Some(ClockDividers::Div2),
            2 => Some(ClockDividers::Div4),
            3 => Some(ClockDividers::Div8),
            4 => Some(ClockDividers::Div16),
            5 => Some(ClockDividers::Div32),
            _ => None,
        }
    }
}

/// The dividers of the clocks that are derived from the system clock.
#[derive(Clone, Copy, Debug, PartialEq, Eq)]
pub struct SystemClockDividerConfig {
    pub pckb: ClockDividers,
    pub pckd: ClockDividers,
    pub pcka: ClockDividers,
    pub rsv: ClockDividers,
    pub ick: ClockDividers,
    pub _fck: ClockDividers,
}

impl Default for SystemClockDividerConfig {
    /// Every clock divided by four.
    fn default() -> (config: Self)
        ensures
            config == (SystemClockDividerConfig {
                pckb: ClockDividers::Div4,
                pckd: ClockDividers::Div4,
                pcka: ClockDividers::Div4,
                rsv: ClockDividers::Div4,
                ick: ClockDividers::Div4,
                _fck: ClockDividers::Div4,
            }),
    {
        SystemClockDividerConfig {
            pckb: ClockDividers::Div4,
            pckd: ClockDividers::Div4,
            pcka: ClockDividers::Div4,
            rsv: ClockDividers::Div4,
            ick: ClockDividers::Div4,
            _fck: ClockDividers::Div4,
        }
    }
}

/// How the system clock is to be set up.
#[derive(Clone, Copy, Debug, PartialEq, Eq)]
pub struct SystemClockConfig {
    pub system_clock_divider: SystemClockDividerConfig,
    /// The frequency of the external oscillator, in hertz.
    pub external_oscillator: u32,
    pub clock_source: ClockSource,
}

/// The frequency of the medium-speed on-chip oscillator, in hertz.
pub const MOCO_FREQUENCY: u32 = 8_000_000;

/// The frequency that a source runs at, in hertz, where it is known: the
/// medium-speed oscillator has a fixed one, the main oscillator that of the
/// external crystal.
pub open spec fn spec_source_frequency(source: ClockSource, external_oscillator: u32) -> Option<
    u32,
> {
    match source {
        ClockSource::MOCO => Some(MOCO_FREQUENCY),
        ClockSource::MainClockOsc => Some(external_oscillator),
        _ => None,
    }
}

/// The frequency of the system clock, in hertz: that of its source, divided
/// by the system clock's divider and rounded down. There is none for a
/// source whose frequency is not known.
pub fn system_clk_freq(source: ClockSource, external_oscillator: u32, ick: ClockDividers) -> (freq:
    Option<u32>)
    ensures
        freq == match spec_source_frequency(source, external_oscillator) {
            Some(f) => Some((f / ick.spec_divisor()) as u32),
            None => None::<u32>,
        },
{
    let base: u32 = match source {
        ClockSource::MOCO => MOCO_FREQUENCY,
        ClockSource::MainClockOsc => external_oscillator,
        _ => {
            return None;
        },
    };
    Some(base / ick.divisor())
}

} // verus!
