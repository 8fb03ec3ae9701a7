//! Pin function select for port 4.
//!
//! The sixteen words of the port lie in two groups: the first ten in one,
//! the last six in the other. A pin number beyond the sixteen is refused; it
//! never reaches into a neighbouring word.

use crate::gpio::port4::PinFunction;
use crate::gpio::{
    AnalogInput, DrainControl, DriveMode, InterruptEnable, InterruptEvent, OutputValue,
    PortDirection, PortMode, PullUpMode,
};
use crate::pfsel::{
    setup_edit, spec_setup_edit, PfsField, PinConfigError, PinSetup, ProtectStep, WordEdit,
};
use vstd::prelude::*;

verus! {

/// How many words the first group holds: pins 0 to 9.
pub const LOWER_DIMENSION: u8 = 10;

/// How many words the second group holds: pins 10 to 15.
pub const UPPER_DIMENSION: u8 = 6;

/// How many pins the port has.
pub const PIN_COUNT: u8 = 16;

/// One of the two groups of words.
#[derive(Clone, Copy, Debug, PartialEq, Eq)]
pub enum PfsGroup {
    /// The words of pins 0 to 9.
    Lower,
    /// The words of pins 10 to 15.
    Upper,
}

/// The place of a pin's word: its group, and its index in the group.
#[derive(Clone, Copy, Debug, PartialEq, Eq)]
pub struct PfsRegister {
    pub group: PfsGroup,
    pub index: u8,
}

impl PfsRegister {
    /// The index lies within the group.
    pub open spec fn wf(self) -> bool {
        match self.group {
            PfsGroup::Lower => self.index < LOWER_DIMENSION,
            PfsGroup::Upper => self.index < UPPER_DIMENSION,
        }
    }

    /// The pin that the word belongs to.
    pub open spec fn spec_pin(self) -> int {
        match self.group {
            PfsGroup::Lower => self.index as int,
            PfsGroup::Upper => LOWER_DIMENSION + self.index,
        }
    }
}

/// A change to the word of one pin.
#[derive(Clone, Copy, Debug, PartialEq, Eq)]
pub struct PinWrite {
    pub register: PfsRegister,
    pub edit: WordEdit,
}

/// One step of changing a pin's word under write protection.
#[derive(Clone, Copy, Debug, PartialEq, Eq)]
pub enum PfsStep {
    /// Change the write-protect register.
    Protect(ProtectStep),
    /// Change the pin's word.
    Write(PinWrite),
}

/// The place of the word of pin `pin`, where the port has such a pin.
pub open spec fn spec_pin_register(pin: u8) -> Option<PfsRegister> {
    if pin < LOWER_DIMENSION {
        Some(PfsRegister { group: PfsGroup::Lower, index: pin })
    } else if pin < PIN_COUNT {
        Some(PfsRegister { group: PfsGroup::Upper, index: (pin - LOWER_DIMENSION) as u8 })
    } else {
        None
    }
}

/// A change to a pin's word with the write protection opened before it and
/// closed after it: five steps, to be taken in order with interrupts masked.
pub open spec fn guarded(write: PinWrite) -> Seq<PfsStep> {
    seq![
        PfsStep::Protect(ProtectStep::ClearGuard),
        PfsStep::Protect(ProtectStep::SetEnable),
        PfsStep::Write(write),
        PfsStep::Protect(ProtectStep::ClearEnable),
        PfsStep::Protect(ProtectStep::SetGuard),
    ]
}

/// The place of the word of pin `pin`. A number beyond the port's pins is
/// refused.
pub fn pin_register(pin: u8) -> (found: Result<PfsRegister, PinConfigError>)
    ensures
        found == match spec_pin_register(pin) {
            Some(register) => Ok::<PfsRegister, PinConfigError>(register),
            None => Err(PinConfigError::PinOutOfRange),
        },
        found is Ok <==> pin < PIN_COUNT,
        found matches Ok(register) ==> register.wf() && register.spec_pin() == pin,
{
    if pin < LOWER_DIMENSION {
        Ok(PfsRegister { group: PfsGroup::Lower, index: pin })
    } else if pin < PIN_COUNT {
        Ok(PfsRegister { group: PfsGroup::Upper, index: pin - LOWER_DIMENSION })
    } else {
        Err(PinConfigError::PinOutOfRange)
    }
}

/// The five steps around `write`.
fn guard(write: PinWrite) -> (steps: [PfsStep; 5])
    ensures
        steps@ == guarded(write),
{
    let steps = [
        PfsStep::Protect(ProtectStep::ClearGuard),
        PfsStep::Protect(ProtectStep::SetEnable),
        PfsStep::Write(write),
        PfsStep::Protect(ProtectStep::ClearEnable),
        PfsStep::Protect(ProtectStep::SetGuard),
    ];
    assert(steps@ =~= guarded(write));
    steps
}

/// The steps that configure pin `pin`: the write protection is opened, the
/// pin's word gets all nine settings in one write, and the protection is
/// closed again. A pin number beyond the port's pins is refused.
pub fn set_pin_function(
    pin: u8,
    direction: PortDirection,
    pull_up_control: PullUpMode,
    open_drain: DrainControl,
    drive: DriveMode,
    event: InterruptEvent,
    interrupt_enable: InterruptEnable,
    analog_select: AnalogInput,
    function: PinFunction,
    port_mode: PortMode,
) -> (plan: Result<[PfsStep; 5], PinConfigError>)
    ensures
        plan is Ok <==> pin < PIN_COUNT,
        plan is Err ==> plan == Err::<[PfsStep; 5], PinConfigError>(PinConfigError::PinOutOfRange),
        plan matches Ok(steps) ==> steps@ == guarded(
            PinWrite {
                register: spec_pin_register(pin).unwrap(),
                edit: spec_setup_edit(
                    PinSetup {
                        direction,
                        pull_up: pull_up_control,
                        open_drain,
                        drive,
                        event,
                        interrupt: interrupt_enable,
                        analog: analog_select,
                        function: function.spec_code(),
                        port_mode,
                    },
                ),
            },
        ),
{
    match pin_register(pin) {
        Ok(register) => {
            let edit = setup_edit(
                PinSetup {
                    direction,
                    pull_up: pull_up_control,
                    open_drain,
                    drive,
                    event,
                    interrupt: interrupt_enable,
                    analog: analog_select,
                    function: function.code(),
                    port_mode,
                },
            );
            Ok(guard(PinWrite { register, edit }))
        },
        Err(e) => Err(e),
    }
}

/// The change that sets the output data of a pin to `output` and leaves the
/// rest of its word alone.
pub open spec fn spec_value_edit(output: OutputValue) -> WordEdit {
    WordEdit {
        mask: PfsField::Podr.spec_mask(),
        bits: PfsField::Podr.spec_place(output.spec_code()),
    }
}

/// The steps that set the level that pin `pin` drives: the write protection
/// is opened, the output data of the pin's word is written, and the
/// protection is closed again. A pin number beyond the port's pins is
/// refused.
pub fn set_pin_value(pin: u8, output: OutputValue) -> (plan: Result<[PfsStep; 5], PinConfigError>)
    ensures
        plan is Ok <==> pin < PIN_COUNT,
        plan is Err ==> plan == Err::<[PfsStep; 5], PinConfigError>(PinConfigError::PinOutOfRange),
        plan matches Ok(steps) ==> steps@ == guarded(
            PinWrite {
                register: spec_pin_register(pin).unwrap(),
                edit: spec_value_edit(output),
            },
        ),
{
    match pin_register(pin) {
        Ok(register) => {
            let edit = WordEdit { mask: 0x1, bits: PfsField::Podr.place(output.code()) };
            assert(1u32 << 0u32 == 1u32) by (bit_vector);
            Ok(guard(PinWrite { register, edit }))
        },
        Err(e) => Err(e),
    }
}

/// Whether the level at a pin is high, given the pin's word.
pub fn get_pin_value(word: u32) -> (high: bool)
    ensures
        high == (PfsField::Pidr.spec_get(word) == 1),
{
    PfsField::Pidr.get(word) == 1
}

/// No two pins share a word, and every word belongs to a pin: the place of
/// a pin's word gives the pin back.
pub proof fn law_pins_do_not_alias(p: u8, q: u8)
    requires
        p < PIN_COUNT,
        q < PIN_COUNT,
    ensures
        spec_pin_register(p) is Some,
        spec_pin_register(p).unwrap().wf(),
        spec_pin_register(p).unwrap().spec_pin() == p,
        spec_pin_register(p) == spec_pin_register(q) ==> p == q,
{
}

/// Setting the level of an output changes the output data and nothing else
/// in the pin's word.
pub proof fn law_value_reads_back(word: u32, output: OutputValue)
    ensures
        ({
            let after = spec_value_edit(output).spec_apply(word);
            &&& PfsField::Podr.spec_get(after) == output.spec_code()
            &&& after & !1u32 == word & !1u32
        }),
{
    let code = output.spec_code() as u32;
    assert((((word & !(1u32 << 0u32)) | ((code & 1) << 0u32)) >> 0u32) & 1 == code) by (bit_vector)
        requires
            code <= 1,
    ;
    assert(((word & !(1u32 << 0u32)) | ((code & 1) << 0u32)) & !1u32 == word & !1u32)
        by (bit_vector);
}

} // verus!
