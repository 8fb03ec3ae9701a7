use ra4m2_hal::gpio4::{DriveMode, OutputMode, PinFunctionPort4, PortDirection, Ports, PullUpMode};

#[test]
fn ports_turn_into_their_numbers() {
    let all = [
        Ports::Port0,
        Ports::Port1,
        Ports::Port2,
        Ports::Port3,
        Ports::Port4,
        Ports::Port5,
        Ports::Port6,
        Ports::Port7,
        Ports::Port8,
    ];
    for (number, port) in all.into_iter().enumerate() {
        let code: u8 = port.into();
        assert_eq!(code, number as u8);
    }
}

#[test]
fn port_four_functions_turn_into_their_codes() {
    let all = [
        (PinFunctionPort4::GPIO, 0u8),
        (PinFunctionPort4::AGT, 1),
        (PinFunctionPort4::GPTA, 2),
        (PinFunctionPort4::GPTB, 3),
        (PinFunctionPort4::SCIA, 4),
        (PinFunctionPort4::SCIB, 5),
        (PinFunctionPort4::IIC, 7),
        (PinFunctionPort4::RTC, 9),
        (PinFunctionPort4::ADC, 10),
        (PinFunctionPort4::CTSU, 12),
        (PinFunctionPort4::CAN, 16),
        (PinFunctionPort4::SSIE, 18),
        (PinFunctionPort4::USBFS, 19),
        (PinFunctionPort4::SDHI, 21),
    ];
    for (function, expected) in all {
        let code: u8 = function.into();
        assert_eq!(code, expected);
        assert_eq!(u8::from(function), expected);
    }
}

#[test]
fn port_four_setting_codes_are_the_register_values() {
    assert_eq!(DriveMode::Low.code(), 0);
    assert_eq!(DriveMode::Middle.code(), 1);
    assert_eq!(DriveMode::High.code(), 4);
    assert_eq!(OutputMode::PushPull.code(), 0);
    assert_eq!(OutputMode::OpenDrain.code(), 1);
    assert_eq!(PullUpMode::Disabled.code(), 0);
    assert_eq!(PullUpMode::Enabled.code(), 1);
    assert_eq!(PortDirection::Input.code(), 0);
    assert_eq!(PortDirection::Output.code(), 1);
}
