use ra4m2_hal::gpio::port4::PinFunction;
use ra4m2_hal::gpio::{
    AnalogInput, DrainControl, DriveMode, InterruptEnable, InterruptEvent, OutputValue,
    PortDirection, PortMode, PullUpMode,
};
use ra4m2_hal::pfsel::port4::{
    get_pin_value, pin_register, set_pin_function, set_pin_value, PfsGroup, PfsRegister, PfsStep,
    PinWrite, LOWER_DIMENSION, UPPER_DIMENSION, PIN_COUNT,
};
use ra4m2_hal::pfsel::{
    _disable_write_protect, _enable_write_protect, setup_edit, PfsField, PinConfigError, PinSetup,
    ProtectStep, WordEdit, PWPR_ENABLE, PWPR_GUARD,
};

const FUNCTIONS: [(PinFunction, u8); 14] = [
    (PinFunction::GPIO, 0),
    (PinFunction::AGT, 1),
    (PinFunction::GPTA, 2),
    (PinFunction::GPTB, 3),
    (PinFunction::SCIA, 4),
    (PinFunction::SCIB, 5),
    (PinFunction::IIC, 7),
    (PinFunction::RTC, 9),
    (PinFunction::ADC, 10),
    (PinFunction::CTSU, 12),
    (PinFunction::CAN, 16),
    (PinFunction::SSIE, 18),
    (PinFunction::USBFS, 19),
    (PinFunction::SDHI, 21),
];

fn alternate(pin: u8, function: PinFunction) -> Result<[PfsStep; 5], PinConfigError> {
    set_pin_function(
        pin,
        PortDirection::Output,
        PullUpMode::Disabled,
        DrainControl::OpenDrain,
        DriveMode::Low,
        InterruptEvent::DontCare,
        InterruptEnable::Disabled,
        AnalogInput::Disabled,
        function,
        PortMode::Alternate,
    )
}

fn the_write(steps: &[PfsStep; 5]) -> PinWrite {
    match steps[2] {
        PfsStep::Write(write) => write,
        PfsStep::Protect(_) => panic!("the third step changes the pin's word"),
    }
}

#[test]
fn function_codes_are_the_documented_ones() {
    for (function, code) in FUNCTIONS {
        assert_eq!(function.code(), code);
    }
}

#[test]
fn every_function_code_reads_back_from_the_word() {
    for old in [0x0000_0000u32, 0xFFFF_FFFF, 0x0000_0003, 0x1234_5678] {
        for (function, code) in FUNCTIONS {
            let steps = alternate(3, function).unwrap();
            let word = the_write(&steps).edit.apply(old);
            assert_eq!(PfsField::Psel.get(word), code as u32);
            assert_eq!(PfsField::Pmr.get(word), 1);
            assert_eq!(PfsField::Pdr.get(word), 1);
            assert_eq!(PfsField::Pcr.get(word), 0);
            assert_eq!(PfsField::Ncodr.get(word), 1);
            assert_eq!(PfsField::Dscr.get(word), 0);
            assert_eq!(PfsField::Eofr.get(word), 0);
            assert_eq!(PfsField::Isel.get(word), 0);
            assert_eq!(PfsField::Asel.get(word), 0);
            assert_eq!(PfsField::Podr.get(word), PfsField::Podr.get(old));
            assert_eq!(PfsField::Pidr.get(word), PfsField::Pidr.get(old));
            assert_eq!(word & !0x1F01_FC54, old & !0x1F01_FC54);
        }
    }
}

#[test]
fn handing_a_pin_to_the_two_wire_bus_gives_this_word() {
    let steps = alternate(0, PinFunction::IIC).unwrap();
    let write = the_write(&steps);
    assert_eq!(write.edit, WordEdit { mask: 0x1F01_FC54, bits: 0x0701_0044 });
    assert_eq!(write.edit.apply(0), 0x0701_0044);
    assert_eq!(write.edit.apply(0xFFFF_FFFF), 0xE7FF_03EF);
}

#[test]
fn every_setting_lands_in_its_own_field() {
    let edit = setup_edit(PinSetup {
        direction: PortDirection::Input,
        pull_up: PullUpMode::Enabled,
        open_drain: DrainControl::PushPull,
        drive: DriveMode::Middle,
        event: InterruptEvent::BothEdges,
        interrupt: InterruptEnable::Enabled,
        analog: AnalogInput::Enabled,
        function: 21,
        port_mode: PortMode::Normal,
    });
    assert_eq!(edit.mask, 0x1F01_FC54);
    assert_eq!(edit.bits, (1 << 4) | (1 << 10) | (3 << 12) | (1 << 14) | (1 << 15) | (21 << 24));
    let word = edit.apply(0);
    assert_eq!(PfsField::Pdr.get(word), 0);
    assert_eq!(PfsField::Pcr.get(word), 1);
    assert_eq!(PfsField::Ncodr.get(word), 0);
    assert_eq!(PfsField::Dscr.get(word), 1);
    assert_eq!(PfsField::Eofr.get(word), 3);
    assert_eq!(PfsField::Isel.get(word), 1);
    assert_eq!(PfsField::Asel.get(word), 1);
    assert_eq!(PfsField::Pmr.get(word), 0);
    assert_eq!(PfsField::Psel.get(word), 21);
}

#[test]
fn field_table_has_the_documented_places() {
    let table = [
        (PfsField::Podr, 0, 0x1),
        (PfsField::Pidr, 1, 0x1),
        (PfsField::Pdr, 2, 0x1),
        (PfsField::Pcr, 4, 0x1),
        (PfsField::Ncodr, 6, 0x1),
        (PfsField::Dscr, 10, 0x3),
        (PfsField::Eofr, 12, 0x3),
        (PfsField::Isel, 14, 0x1),
        (PfsField::Asel, 15, 0x1),
        (PfsField::Pmr, 16, 0x1),
        (PfsField::Psel, 24, 0x1f),
    ];
    for (field, offset, width) in table {
        assert_eq!(field.offset(), offset);
        assert_eq!(field.width_mask(), width);
        assert_eq!(field.place(0xFF), width << offset);
        assert_eq!(field.get(0xFFFF_FFFF), width);
        assert_eq!(field.get(!(width << offset)), 0);
    }
}

#[test]
fn drive_strength_codes_are_zero_one_and_four() {
    assert_eq!(DriveMode::Low.code(), 0);
    assert_eq!(DriveMode::Middle.code(), 1);
    assert_eq!(DriveMode::High.code(), 4);
}

#[test]
fn code_wider_than_its_field_is_cut_to_the_field() {
    assert_eq!(PfsField::Dscr.place(DriveMode::High.code()), 0);
    assert_eq!(PfsField::Dscr.place(DriveMode::Middle.code()), 1 << 10);
    assert_eq!(PfsField::Psel.place(0xFF), 0x1F00_0000);
}

#[test]
fn pin_beyond_the_port_is_refused() {
    assert_eq!(pin_register(16), Err(PinConfigError::PinOutOfRange));
    assert_eq!(pin_register(255), Err(PinConfigError::PinOutOfRange));
    assert_eq!(alternate(16, PinFunction::IIC), Err(PinConfigError::PinOutOfRange));
    assert_eq!(alternate(200, PinFunction::GPIO), Err(PinConfigError::PinOutOfRange));
    assert_eq!(set_pin_value(16, OutputValue::High), Err(PinConfigError::PinOutOfRange));
}

#[test]
fn pins_are_split_between_the_two_groups_at_ten() {
    assert_eq!(LOWER_DIMENSION, 10);
    assert_eq!(UPPER_DIMENSION, 6);
    assert_eq!(PIN_COUNT, 16);
    assert_eq!(pin_register(0), Ok(PfsRegister { group: PfsGroup::Lower, index: 0 }));
    assert_eq!(pin_register(9), Ok(PfsRegister { group: PfsGroup::Lower, index: 9 }));
    assert_eq!(pin_register(10), Ok(PfsRegister { group: PfsGroup::Upper, index: 0 }));
    assert_eq!(pin_register(15), Ok(PfsRegister { group: PfsGroup::Upper, index: 5 }));
}

#[test]
fn no_two_pins_share_a_word() {
    for p in 0..PIN_COUNT {
        for q in 0..PIN_COUNT {
            if p != q {
                assert_ne!(pin_register(p), pin_register(q));
            }
        }
    }
}

#[test]
fn pin_word_is_changed_between_opening_and_closing_the_protection() {
    let steps = alternate(12, PinFunction::SCIA).unwrap();
    assert_eq!(steps[0], PfsStep::Protect(ProtectStep::ClearGuard));
    assert_eq!(steps[1], PfsStep::Protect(ProtectStep::SetEnable));
    assert_eq!(the_write(&steps).register, PfsRegister { group: PfsGroup::Upper, index: 2 });
    assert_eq!(steps[3], PfsStep::Protect(ProtectStep::ClearEnable));
    assert_eq!(steps[4], PfsStep::Protect(ProtectStep::SetGuard));
}

#[test]
fn write_protection_opens_and_closes_in_two_steps_each() {
    assert_eq!(_disable_write_protect(), [ProtectStep::ClearGuard, ProtectStep::SetEnable]);
    assert_eq!(_enable_write_protect(), [ProtectStep::ClearEnable, ProtectStep::SetGuard]);
    assert_eq!(PWPR_GUARD, 0x80);
    assert_eq!(PWPR_ENABLE, 0x40);
    for start in [0x80u8, 0x00, 0x40, 0xC0, 0xBF, 0x2A] {
        let mut pwpr = start;
        for step in _disable_write_protect() {
            pwpr = step.apply(pwpr);
        }
        assert_eq!(pwpr & 0xC0, 0x40);
        assert_eq!(pwpr & 0x3F, start & 0x3F);
        for step in _enable_write_protect() {
            pwpr = step.apply(pwpr);
        }
        assert_eq!(pwpr & 0xC0, 0x80);
        assert_eq!(pwpr & 0x3F, start & 0x3F);
    }
    assert_eq!(ProtectStep::ClearGuard.apply(0x80), 0x00);
    assert_eq!(ProtectStep::SetEnable.apply(0x00), 0x40);
    assert_eq!(ProtectStep::ClearEnable.apply(0x40), 0x00);
    assert_eq!(ProtectStep::SetGuard.apply(0x00), 0x80);
}

#[test]
fn setting_a_level_changes_the_output_data_alone() {
    let high = the_write(&set_pin_value(5, OutputValue::High).unwrap());
    let low = the_write(&set_pin_value(5, OutputValue::Low).unwrap());
    assert_eq!(high.register, PfsRegister { group: PfsGroup::Lower, index: 5 });
    assert_eq!(high.edit, WordEdit { mask: 1, bits: 1 });
    assert_eq!(low.edit, WordEdit { mask: 1, bits: 0 });
    assert_eq!(high.edit.apply(0x0701_0044), 0x0701_0045);
    assert_eq!(low.edit.apply(0x0701_0045), 0x0701_0044);
    assert_eq!(OutputValue::High.code(), 1);
    assert_eq!(OutputValue::Low.code(), 0);
}

#[test]
fn level_at_a_pin_is_the_second_bit_of_its_word() {
    assert!(get_pin_value(0x0000_0002));
    assert!(get_pin_value(0xFFFF_FFFF));
    assert!(!get_pin_value(0x0000_0000));
    assert!(!get_pin_value(0xFFFF_FFFD));
    assert!(!get_pin_value(0x0000_0001));
}

#[test]
fn setting_codes_are_the_register_values() {
    assert_eq!(PortDirection::Input.code(), 0);
    assert_eq!(PortDirection::Output.code(), 1);
    assert_eq!(PullUpMode::Disabled.code(), 0);
    assert_eq!(PullUpMode::Enabled.code(), 1);
    assert_eq!(DrainControl::PushPull.code(), 0);
    assert_eq!(DrainControl::OpenDrain.code(), 1);
    assert_eq!(InterruptEvent::DontCare.code(), 0);
    assert_eq!(InterruptEvent::RisingEdge.code(), 1);
    assert_eq!(InterruptEvent::FallingEdge.code(), 2);
    assert_eq!(InterruptEvent::BothEdges.code(), 3);
    assert_eq!(InterruptEnable::Disabled.code(), 0);
    assert_eq!(InterruptEnable::Enabled.code(), 1);
    assert_eq!(AnalogInput::Disabled.code(), 0);
    assert_eq!(AnalogInput::Enabled.code(), 1);
    assert_eq!(PortMode::Normal.code(), 0);
    assert_eq!(PortMode::Alternate.code(), 1);
}
