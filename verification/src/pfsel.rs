//! Pin function select: the layout of a pin's register word, and the write
//! protection that guards the words.
//!
//! Nothing here touches a register. A function says which word to change and
//! how, and in which order the protection is opened and closed around the
//! change; the caller does so with interrupts masked.

pub mod port4;

use crate::gpio::{
    AnalogInput, DrainControl, DriveMode, InterruptEnable, InterruptEvent, PortDirection, PortMode,
    PullUpMode,
};
use vstd::prelude::*;

verus! {

/// Stands for the pin-function-select block once the device is set up.
pub struct PinFnSel {}

/// Why a pin could not be configured.
#[derive(Clone, Copy, Debug, PartialEq, Eq)]
pub enum PinConfigError {
    /// The port has no pin of that number.
    PinOutOfRange,
}

/// A field of a pin's register word.
#[derive(Clone, Copy, Debug, PartialEq, Eq)]
pub enum PfsField {
    /// Output data.
    Podr,
    /// The level at the pin.
    Pidr,
    /// Direction.
    Pdr,
    /// Pull-up control.
    Pcr,
    /// Open-drain control.
    Ncodr,
    /// Drive strength.
    Dscr,
    /// Edge select of the pin's event.
    Eofr,
    /// Interrupt input select.
    Isel,
    /// Analog input select.
    Asel,
    /// Port mode.
    Pmr,
    /// Peripheral select.
    Psel,
}

impl PfsField {
    /// The position of the field's lowest bit in the word.
    pub open spec fn spec_offset(self) -> u32 {
        match self {
            PfsField::Podr => 0u32,
            PfsField::Pidr => 1u32,
            PfsField::Pdr => 2u32,
            PfsField::Pcr => 4u32,
            PfsField::Ncodr => 6u32,
            PfsField::Dscr => 10u32,
            PfsField::Eofr => 12u32,
            PfsField::Isel => 14u32,
            PfsField::Asel => 15u32,
            PfsField::Pmr => 16u32,
            PfsField::Psel => 24u32,
        }
    }

    /// The field's width as a mask of low bits.
    pub open spec fn spec_width_mask(self) -> u32 {
        match self {
            PfsField::Dscr | PfsField::Eofr => 0x3u32,
            PfsField::Psel => 0x1fu32,
            _ => 0x1u32,
        }
    }

    /// The position of the field's lowest bit in the word.
    pub fn offset(self) -> (offset: u32)
        ensures
            offset == self.spec_offset(),
            offset <= 24,
    {
        match self {
            PfsField::Podr => 0,
            PfsField::Pidr => 1,
            PfsField::Pdr => 2,
            PfsField::Pcr => 4,
            PfsField::Ncodr => 6,
            PfsField::Dscr => 10,
            PfsField::Eofr => 12,
            PfsField::Isel => 14,
            PfsField::Asel => 15,
            PfsField::Pmr => 16,
            PfsField::Psel => 24,
        }
    }

    /// The field's width as a mask of low bits.
    pub fn width_mask(self) -> (mask: u32)
        ensures
            mask == self.spec_width_mask(),
    {
        match self {
            PfsField::Dscr | PfsField::Eofr => 0x3,
            PfsField::Psel => 0x1f,
            _ => 0x1,
        }
    }

    /// The bits of the word that the field occupies.
    pub open spec fn spec_mask(self) -> u32 {
        self.spec_width_mask() << self.spec_offset()
    }

    /// What the field holds in `word`.
    pub open spec fn spec_get(self, word: u32) -> u32 {
        (word >> self.spec_offset()) & self.spec_width_mask()
    }

    /// `code` where the field lies, cut to the field's width. A code that is
    /// wider than the field loses its high bits.
    pub open spec fn spec_place(self, code: u8) -> u32 {
        ((code as u32) & self.spec_width_mask()) << self.spec_offset()
    }

    /// What the field holds in `word`.
    pub fn get(self, word: u32) -> (value: u32)
        ensures
            value == self.spec_get(word),
    {
        (word >> self.offset()) & self.width_mask()
    }

    /// `code` where the field lies, cut to the field's width.
    pub fn place(self, code: u8) -> (bits: u32)
        ensures
            bits == self.spec_place(code),
    {
        ((code as u32) & self.width_mask()) << self.offset()
    }
}

/// A change to a register word: the bits under `mask` take the value they
/// have in `bits`, and every other bit stays.
#[derive(Clone, Copy, Debug, PartialEq, Eq)]
pub struct WordEdit {
    pub mask: u32,
    pub bits: u32,
}

impl WordEdit {
    /// The word after the change.
    pub open spec fn spec_apply(self, word: u32) -> u32 {
        (word & !self.mask) | self.bits
    }

    /// The word after the change.
    pub fn apply(&self, word: u32) -> (changed: u32)
        ensures
            changed == self.spec_apply(word),
    {
        (word & !self.mask) | self.bits
    }
}

/// Everything that configuring a pin settles. The peripheral is given by its
/// code, which each port has its own names for.
#[derive(Clone, Copy, Debug, PartialEq, Eq)]
pub struct PinSetup {
    pub direction: PortDirection,
    pub pull_up: PullUpMode,
    pub open_drain: DrainControl,
    pub drive: DriveMode,
    pub event: InterruptEvent,
    pub interrupt: InterruptEnable,
    pub analog: AnalogInput,
    pub function: u8,
    pub port_mode: PortMode,
}

/// The bits of a pin's word that configuring the pin writes: every field but
/// the output data and the level at the pin.
pub open spec fn spec_setup_mask() -> u32 {
    PfsField::Pdr.spec_mask() | PfsField::Pcr.spec_mask() | PfsField::Ncodr.spec_mask()
        | PfsField::Dscr.spec_mask() | PfsField::Eofr.spec_mask() | PfsField::Isel.spec_mask()
        | PfsField::Asel.spec_mask() | PfsField::Pmr.spec_mask() | PfsField::Psel.spec_mask()
}

/// The code of each setting at the place of its field.
pub open spec fn spec_setup_bits(setup: PinSetup) -> u32 {
    PfsField::Pdr.spec_place(setup.direction.spec_code()) | PfsField::Pcr.spec_place(
        setup.pull_up.spec_code(),
    ) | PfsField::Ncodr.spec_place(setup.open_drain.spec_code()) | PfsField::Dscr.spec_place(
        setup.drive.spec_code(),
    ) | PfsField::Eofr.spec_place(setup.event.spec_code()) | PfsField::Isel.spec_place(
        setup.interrupt.spec_code(),
    ) | PfsField::Asel.spec_place(setup.analog.spec_code()) | PfsField::Pmr.spec_place(
        setup.port_mode.spec_code(),
    ) | PfsField::Psel.spec_place(setup.function)
}

/// The change to a pin's word that configures the pin as `setup` says.
pub open spec fn spec_setup_edit(setup: PinSetup) -> WordEdit {
    WordEdit { mask: spec_setup_mask(), bits: spec_setup_bits(setup) }
}

/// The change to a pin's word that configures the pin as `setup` says: one
/// write that sets all nine fields at once.
pub fn setup_edit(setup: PinSetup) -> (edit: WordEdit)
    ensures
        edit == spec_setup_edit(setup),
        edit.mask == 0x1F01_FC54u32,
{
    let bits: u32 = PfsField::Pdr.place(setup.direction.code()) | PfsField::Pcr.place(
        setup.pull_up.code(),
    ) | PfsField::Ncodr.place(setup.open_drain.code()) | PfsField::Dscr.place(
        setup.drive.code(),
    ) | PfsField::Eofr.place(setup.event.code()) | PfsField::Isel.place(setup.interrupt.code())
        | PfsField::Asel.place(setup.analog.code()) | PfsField::Pmr.place(
        setup.port_mode.code(),
    ) | PfsField::Psel.place(setup.function);
    proof {
        lemma_setup_word(0, 0, 0, 0, 0, 0, 0, 0, 0, 0);
    }
    WordEdit { mask: 0x1F01_FC54, bits }
}

/// The word that a setup leaves, spelled out in bits.
proof fn lemma_setup_word(
    w: u32,
    d: u32,
    p: u32,
    n: u32,
    s: u32,
    e: u32,
    i: u32,
    a: u32,
    m: u32,
    f: u32,
)
    by (bit_vector)
    ensures
        (1u32 << 2u32) | (1u32 << 4u32) | (1u32 << 6u32) | (3u32 << 10u32) | (3u32 << 12u32) | (1u32
            << 14u32) | (1u32 << 15u32) | (1u32 << 16u32) | (0x1fu32 << 24u32) == 0x1F01_FC54u32,
        ({
            let bits = ((d & 1) << 2u32) | ((p & 1) << 4u32) | ((n & 1) << 6u32) | ((s & 3)
                << 10u32) | ((e & 3) << 12u32) | ((i & 1) << 14u32) | ((a & 1) << 15u32) | ((m
                & 1) << 16u32) | ((f & 0x1f) << 24u32);
            let r = (w & !0x1F01_FC54u32) | bits;
            &&& (r >> 2u32) & 1 == d & 1
            &&& (r >> 4u32) & 1 == p & 1
            &&& (r >> 6u32) & 1 == n & 1
            &&& (r >> 10u32) & 3 == s & 3
            &&& (r >> 12u32) & 3 == e & 3
            &&& (r >> 14u32) & 1 == i & 1
            &&& (r >> 15u32) & 1 == a & 1
            &&& (r >> 16u32) & 1 == m & 1
            &&& (r >> 24u32) & 0x1f == f & 0x1f
            &&& (r >> 0u32) & 1 == (w >> 0u32) & 1
            &&& (r >> 1u32) & 1 == (w >> 1u32) & 1
            &&& r & !0x1F01_FC54u32 == w & !0x1F01_FC54u32
        }),
{
}

/// Configuring a pin and reading its word back gives, field by field, the
/// code of each setting, cut to the width of its field; the output data, the
/// level at the pin and every bit outside the nine fields are as they were.
pub proof fn law_setup_reads_back(word: u32, setup: PinSetup)
    ensures
        ({
            let after = spec_setup_edit(setup).spec_apply(word);
            &&& PfsField::Pdr.spec_get(after) == setup.direction.spec_code()
            &&& PfsField::Pcr.spec_get(after) == setup.pull_up.spec_code()
            &&& PfsField::Ncodr.spec_get(after) == setup.open_drain.spec_code()
            &&& PfsField::Dscr.spec_get(after) == setup.drive.spec_code() & 0x3
            &&& PfsField::Eofr.spec_get(after) == setup.event.spec_code()
            &&& PfsField::Isel.spec_get(after) == setup.interrupt.spec_code()
            &&& PfsField::Asel.spec_get(after) == setup.analog.spec_code()
            &&& PfsField::Pmr.spec_get(after) == setup.port_mode.spec_code()
            &&& PfsField::Psel.spec_get(after) == setup.function & 0x1f
            &&& PfsField::Podr.spec_get(after) == PfsField::Podr.spec_get(word)
            &&& PfsField::Pidr.spec_get(after) == PfsField::Pidr.spec_get(word)
            &&& after & !spec_setup_mask() == word & !spec_setup_mask()
        }),
{
    let d = setup.direction.spec_code() as u32;
    let p = setup.pull_up.spec_code() as u32;
    let n = setup.open_drain.spec_code() as u32;
    let s = setup.drive.spec_code() as u32;
    let e = setup.event.spec_code() as u32;
    let i = setup.interrupt.spec_code() as u32;
    let a = setup.analog.spec_code() as u32;
    let m = setup.port_mode.spec_code() as u32;
    let f = setup.function as u32;
    lemma_setup_word(word, d, p, n, s, e, i, a, m, f);
    assert(d & 1 == d && p & 1 == p && n & 1 == n && e & 3 == e && i & 1 == i && a & 1 == a && m
        & 1 == m) by (bit_vector)
        requires
            d <= 1,
            p <= 1,
            n <= 1,
            e <= 3,
            i <= 1,
            a <= 1,
            m <= 1,
    ;
    let code = setup.drive.spec_code();
    let function = setup.function;
    assert(s & 3 == (code & 0x3) as u32 && f & 0x1f == (function & 0x1f) as u32) by (bit_vector)
        requires
            s == code as u32,
            f == function as u32,
    ;
}

/// One change to the write-protect register. A pin's word can be written
/// only while the enable bit is set, and the enable bit can be changed only
/// while the guard bit is clear, so opening and closing take two steps each.
#[derive(Clone, Copy, Debug, PartialEq, Eq)]
pub enum ProtectStep {
    /// Clear the guard bit, so that the enable bit can be written.
    ClearGuard,
    /// Set the enable bit, so that the pins' words can be written.
    SetEnable,
    /// Clear the enable bit.
    ClearEnable,
    /// Set the guard bit.
    SetGuard,
}

/// The guard bit of the write-protect register.
pub const PWPR_GUARD: u8 = 0x80;

/// The enable bit of the write-protect register.
pub const PWPR_ENABLE: u8 = 0x40;

impl ProtectStep {
    /// The write-protect register after the step.
    pub open spec fn spec_apply(self, pwpr: u8) -> u8 {
        match self {
            ProtectStep::ClearGuard => pwpr & !PWPR_GUARD,
            ProtectStep::SetEnable => pwpr | PWPR_ENABLE,
            ProtectStep::ClearEnable => pwpr & !PWPR_ENABLE,
            ProtectStep::SetGuard => pwpr | PWPR_GUARD,
        }
    }

    /// The write-protect register after the step.
    pub fn apply(self, pwpr: u8) -> (changed: u8)
        ensures
            changed == self.spec_apply(pwpr),
    {
        match self {
            ProtectStep::ClearGuard => pwpr & !PWPR_GUARD,
            ProtectStep::SetEnable => pwpr | PWPR_ENABLE,
            ProtectStep::ClearEnable => pwpr & !PWPR_ENABLE,
            ProtectStep::SetGuard => pwpr | PWPR_GUARD,
        }
    }
}

/// Whether the pins' words can be written: the enable bit is set.
pub open spec fn pfs_writable(pwpr: u8) -> bool {
    pwpr & PWPR_ENABLE == PWPR_ENABLE
}

/// Whether the pins' words are protected and the protection is guarded: the
/// enable bit is clear and the guard bit is set.
pub open spec fn pfs_protected(pwpr: u8) -> bool {
    pwpr & (PWPR_GUARD | PWPR_ENABLE) == PWPR_GUARD
}

/// The two steps that open the write protection, in order: clear the guard
/// bit, then set the enable bit.
pub fn _disable_write_protect() -> (steps: [ProtectStep; 2])
    ensures
        steps@ == seq![ProtectStep::ClearGuard, ProtectStep::SetEnable],
{
    let steps = [ProtectStep::ClearGuard, ProtectStep::SetEnable];
    assert(steps@ =~= seq![ProtectStep::ClearGuard, ProtectStep::SetEnable]);
    steps
}

/// The two steps that close the write protection, in order: clear the enable
/// bit, then set the guard bit.
pub fn _enable_write_protect() -> (steps: [ProtectStep; 2])
    ensures
        steps@ == seq![ProtectStep::ClearEnable, ProtectStep::SetGuard],
{
    let steps = [ProtectStep::ClearEnable, ProtectStep::SetGuard];
    assert(steps@ =~= seq![ProtectStep::ClearEnable, ProtectStep::SetGuard]);
    steps
}

/// Whatever the write-protect register held, the two opening steps leave the
/// pins' words writable, and the two closing steps leave them protected with
/// the guard set. Neither pair touches the other six bits.
pub proof fn law_write_protect_bracket(pwpr: u8)
    ensures
        ({
            let opened = ProtectStep::SetEnable.spec_apply(
                ProtectStep::ClearGuard.spec_apply(pwpr),
            );
            let closed = ProtectStep::SetGuard.spec_apply(
                ProtectStep::ClearEnable.spec_apply(pwpr),
            );
            &&& pfs_writable(opened)
            &&& opened & PWPR_GUARD == 0
            &&& opened & 0x3f == pwpr & 0x3f
            &&& pfs_protected(closed)
            &&& closed & 0x3f == pwpr & 0x3f
        }),
{
    assert(((pwpr & !0x80u8) | 0x40u8) & 0x40u8 == 0x40u8) by (bit_vector);
    assert(((pwpr & !0x80u8) | 0x40u8) & 0x80u8 == 0) by (bit_vector);
    assert(((pwpr & !0x80u8) | 0x40u8) & 0x3fu8 == pwpr & 0x3fu8) by (bit_vector);
    assert(((pwpr & !0x40u8) | 0x80u8) & (0x80u8 | 0x40u8) == 0x80u8) by (bit_vector);
    assert(((pwpr & !0x40u8) | 0x80u8) & 0x3fu8 == pwpr & 0x3fu8) by (bit_vector);
}

} // verus!
