use ra4m2_hal::gpio::port4::{PinFunction, Port4};
use ra4m2_hal::gpio::{
    AnalogInput, DrainControl, DriveMode, InterruptEnable, InterruptEvent, OutputValue,
    PortDirection, PortMode, Ports, PullUpMode,
};
use ra4m2_hal::i2c::I2c0;
use ra4m2_hal::pfsel::port4::{
    set_pin_function, set_pin_value, PfsGroup, PfsRegister, PfsStep,
};
use ra4m2_hal::pfsel::{PfsField, ProtectStep};

fn word_after(steps: &[PfsStep; 5], old: u32) -> u32 {
    match steps[2] {
        PfsStep::Write(write) => write.edit.apply(old),
        PfsStep::Protect(_) => panic!("the third step changes the pin's word"),
    }
}

#[test]
fn port_numbers_are_their_codes() {
    assert_eq!(Ports::Port0.code(), 0);
    assert_eq!(Ports::Port4.code(), 4);
    assert_eq!(Ports::Port7.code(), 7);
}

#[test]
fn push_pull_output_is_a_general_output_of_the_given_strength() {
    let pins = Port4::new(ra4m2_pac::PORT4).split();
    let (_led, steps) = pins.p15.into_output_push_pull(DriveMode::Middle);
    let expected = set_pin_function(
        15,
        PortDirection::Output,
        PullUpMode::Disabled,
        DrainControl::PushPull,
        DriveMode::Middle,
        InterruptEvent::DontCare,
        InterruptEnable::Disabled,
        AnalogInput::Disabled,
        PinFunction::GPIO,
        PortMode::Normal,
    );
    assert_eq!(Ok(steps), expected);
    assert_eq!(word_after(&steps, 0), (1 << 2) | (1 << 10));
    assert_eq!(steps[0], PfsStep::Protect(ProtectStep::ClearGuard));
    assert_eq!(steps[4], PfsStep::Protect(ProtectStep::SetGuard));
}

#[test]
fn alternate_function_is_an_open_drain_output_in_peripheral_mode() {
    let pins = Port4::new(ra4m2_pac::PORT4).split();
    let (_sda, steps) = pins.p00.into_alternate_function(PinFunction::IIC);
    assert_eq!(word_after(&steps, 0), 0x0701_0044);
    let (_scl, steps) = pins.p01.into_alternate_function(PinFunction::IIC);
    assert_eq!(word_after(&steps, 0xFFFF_FFFF), 0xE7FF_03EF);
    match steps[2] {
        PfsStep::Write(write) => {
            assert_eq!(write.register, PfsRegister { group: PfsGroup::Lower, index: 1 })
        }
        PfsStep::Protect(_) => panic!("the third step changes the pin's word"),
    }
}

#[test]
fn input_with_pull_up_connects_the_pull_up() {
    let pins = Port4::new(ra4m2_pac::PORT4).split();
    let (button, steps) = pins.p10.into_input_pull_up();
    let word = word_after(&steps, 0xFFFF_FFFF);
    assert_eq!(PfsField::Pdr.get(word), 0);
    assert_eq!(PfsField::Pcr.get(word), 1);
    assert_eq!(PfsField::Pmr.get(word), 0);
    assert_eq!(PfsField::Psel.get(word), 0);
    assert_eq!(button.register(), PfsRegister { group: PfsGroup::Upper, index: 0 });
    assert!(button.is_high(0x2));
    assert!(!button.is_low(0x2));
    assert!(button.is_low(0x0));
    assert!(!button.is_high(0x1));
}

#[test]
fn input_with_pull_down_leaves_the_pull_up_off() {
    let pins = Port4::new(ra4m2_pac::PORT4).split();
    let (sense, steps) = pins.p09.into_input_pull_down();
    let word = word_after(&steps, 0xFFFF_FFFF);
    assert_eq!(PfsField::Pdr.get(word), 0);
    assert_eq!(PfsField::Pcr.get(word), 0);
    assert_eq!(sense.register(), PfsRegister { group: PfsGroup::Lower, index: 9 });
    assert!(sense.is_high(0xFFFF_FFFF));
    assert!(sense.is_low(0xFFFF_FFFD));
}

#[test]
fn output_sets_its_own_level() {
    let pins = Port4::new(ra4m2_pac::PORT4).split();
    let (mut led, _) = pins.p04.into_output_push_pull(DriveMode::Low);
    assert_eq!(Ok(led.set_high()), set_pin_value(4, OutputValue::High));
    assert_eq!(Ok(led.set_low()), set_pin_value(4, OutputValue::Low));
    assert_eq!(word_after(&led.set_high(), 0x4), 0x5);
    assert_eq!(word_after(&led.set_low(), 0x5), 0x4);
}

#[test]
fn pin_can_change_its_state_again() {
    let pins = Port4::new(ra4m2_pac::PORT4).split();
    let (output, _) = pins.p03.into_output_push_pull(DriveMode::High);
    let (input, steps) = output.into_input_pull_up();
    assert_eq!(PfsField::Pdr.get(word_after(&steps, 0x4)), 0);
    let (_peripheral, steps) = input.into_alternate_function(PinFunction::SDHI);
    assert_eq!(PfsField::Psel.get(word_after(&steps, 0)), 21);
}

#[test]
fn bus_master_is_made_from_two_pins_handed_to_a_peripheral() {
    let pins = Port4::new(ra4m2_pac::PORT4).split();
    let (sda, _) = pins.p01.into_alternate_function(PinFunction::IIC);
    let (scl, _) = pins.p00.into_alternate_function(PinFunction::IIC);
    let mut master = I2c0::new(ra4m2_pac::IIC0, sda, scl);
    assert!(*master.registers() == ra4m2_pac::IIC0);
    let data = [0x6B];
    let mut write = master.write(0x68, &data);
    assert_eq!(write.step(false), ra4m2_hal::i2c::BusOp::Configure(0x68));
    let mut read = master.read(0x68, 14);
    assert_eq!(read.step(false), ra4m2_hal::i2c::BusOp::Configure(0x68));
    let mut both = master.write_read(0x68, &data, 2);
    assert_eq!(both.step(false), ra4m2_hal::i2c::BusOp::Configure(0x68));
}
