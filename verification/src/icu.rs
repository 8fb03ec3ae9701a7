//! The interrupt controller: which event is linked to which interrupt line.
//!
//! The lines are numbered from zero. A number beyond the last line is a
//! mistake in the program's configuration, not something to recover from:
//! the functions here leave such numbers out, and the caller stops on them.

use vstd::prelude::*;

verus! {

/// Stands for the interrupt controller once the device is set up.
pub struct Icu {}

/// How many interrupt lines the controller has.
pub const INTERRUPT_EVENTS: u16 = 96;

/// Every bit of a link word but the pending flag.
pub const CLEAR_INTERRUPT: u32 = 0xFFFE_FFFF;

/// What to write where to link an event to an interrupt line.
#[derive(Clone, Copy, Debug, PartialEq, Eq)]
pub struct EventLink {
    /// The index of the line's link word.
    pub slot: usize,
    /// The word to write there.
    pub word: u32,
}

/// Whether the controller has a line of this number.
pub fn is_interrupt_line(number: u16) -> (known: bool)
    ensures
        known == (number < INTERRUPT_EVENTS),
{
    number < INTERRUPT_EVENTS
}

/// Links `event` to interrupt line `number`: the line's link word takes the
/// event's number.
pub fn register_interrupt(number: u16, event: u16) -> (link: EventLink)
    requires
        number < INTERRUPT_EVENTS,
    ensures
        link.slot == number,
        link.word == event,
{
    EventLink { slot: number as usize, word: event as u32 }
}

/// The link word of line `number` with its pending flag cleared, given what
/// the word holds now. Nothing else in the word changes.
pub fn clear_interrupt(number: u16, contents: u32) -> (cleared: u32)
    requires
        number < INTERRUPT_EVENTS,
    ensures
        cleared == contents & CLEAR_INTERRUPT,
        cleared & 0x0001_0000 == 0,
        cleared & !0x0001_0000u32 == contents & !0x0001_0000u32,
{
    assert((contents & 0xFFFE_FFFFu32) & 0x0001_0000 == 0) by (bit_vector);
    assert((contents & 0xFFFE_FFFFu32) & !0x0001_0000u32 == contents & !0x0001_0000u32)
        by (bit_vector);
    contents & CLEAR_INTERRUPT
}

} // verus!
