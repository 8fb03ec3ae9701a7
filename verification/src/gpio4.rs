//! Names and codes for the ports and for the settings of the pins of port 4.

use vstd::prelude::*;

verus! {

/// Implemented by the ports.
pub trait Port {

}

/// One of the ports of the device.
#[derive(Clone, Copy, Debug, PartialEq, Eq)]
pub enum Ports {
    Port0,
    Port1,
    Port2,
    Port3,
    Port4,
    Port5,
    Port6,
    Port7,
    Port8,
}

impl Ports {
    /// The number of the port.
    pub open spec fn spec_code(self) -> u8 {
        match self {
            Ports::Port0 => 0u8,
            Ports::Port1 => 1u8,
            Ports::Port2 => 2u8,
            Ports::Port3 => 3u8,
            Ports::Port4 => 4u8,
            Ports::Port5 => 5u8,
            Ports::Port6 => 6u8,
            Ports::Port7 => 7u8,
            Ports::Port8 => 8u8,
        }
    }
}

impl From<Ports> for u8 {
    /// The number of the port.
    fn from(port: Ports) -> (code: u8) {
        match port {
            Ports::Port0 => 0,
            Ports::Port1 => 1,
            Ports::Port2 => 2,
            Ports::Port3 => 3,
            Ports::Port4 => 4,
            Ports::Port5 => 5,
            Ports::Port6 => 6,
            Ports::Port7 => 7,
            Ports::Port8 => 8,
        }
    }
}

impl vstd::std_specs::convert::FromSpecImpl<Ports> for u8 {
    open spec fn obeys_from_spec() -> bool {
        true
    }

    open spec fn from_spec(port: Ports) -> u8 {
        port.spec_code()
    }
}

/// The peripheral that a pin of port 4 can be handed to.
#[derive(Clone, Copy, Debug, PartialEq, Eq)]
pub enum PinFunctionPort4 {
    GPIO,
    AGT,
    GPTA,
    GPTB,
    SCIA,
    SCIB,
    IIC,
    RTC,
    ADC,
    CTSU,
    CAN,
    SSIE,
    USBFS,
    SDHI,
}

impl PinFunctionPort4 {
    /// The code that selects the peripheral.
    pub open spec fn spec_code(self) -> u8 {
        match self {
            PinFunctionPort4::GPIO => 0u8,
            PinFunctionPort4::AGT => 1u8,
            PinFunctionPort4::GPTA => 2u8,
            PinFunctionPort4::GPTB => 3u8,
            PinFunctionPort4::SCIA => 4u8,
            PinFunctionPort4::SCIB => 5u8,
            PinFunctionPort4::IIC => 7u8,
            PinFunctionPort4::RTC => 9u8,
            PinFunctionPort4::ADC => 10u8,
            PinFunctionPort4::CTSU => 12u8,
            PinFunctionPort4::CAN => 16u8,
            PinFunctionPort4::SSIE => 18u8,
            PinFunctionPort4::USBFS => 19u8,
            PinFunctionPort4::SDHI => 21u8,
        }
    }
}

impl From<PinFunctionPort4> for u8 {
    /// The code that selects the peripheral.
    fn from(function: PinFunctionPort4) -> (code: u8) {
        match function {
            PinFunctionPort4::GPIO => 0,
            PinFunctionPort4::AGT => 1,
            PinFunctionPort4::GPTA => 2,
            PinFunctionPort4::GPTB => 3,
            PinFunctionPort4::SCIA => 4,
            PinFunctionPort4::SCIB => 5,
            PinFunctionPort4::IIC => 7,
            PinFunctionPort4::RTC => 9,
            PinFunctionPort4::ADC => 10,
            PinFunctionPort4::CTSU => 12,
            PinFunctionPort4::CAN => 16,
            PinFunctionPort4::SSIE => 18,
            PinFunctionPort4::USBFS => 19,
            PinFunctionPort4::SDHI => 21,
        }
    }
}

impl vstd::std_specs::convert::FromSpecImpl<PinFunctionPort4> for u8 {
    open spec fn obeys_from_spec() -> bool {
        true
    }

    open spec fn from_spec(function: PinFunctionPort4) -> u8 {
        function.spec_code()
    }
}

/// How strongly an output pin drives the line.
#[derive(Clone, Copy, Debug, PartialEq, Eq)]
pub enum DriveMode {
    Low,
    Middle,
    High,
}

impl DriveMode {
    /// The drive-strength code.
    pub open spec fn spec_code(self) -> u8 {
        match self {
            DriveMode::Low => 0u8,
            DriveMode::Middle => 1u8,
            DriveMode::High => 4u8,
        }
    }

    /// The drive-strength code.
    pub fn code(self) -> (code: u8)
        ensures
            code == self.spec_code(),
    {
        match self {
            DriveMode::Low => 0,
            DriveMode::Middle => 1,
            DriveMode::High => 4,
        }
    }
}

/// How an output pin drives the line.
#[derive(Clone, Copy, Debug, PartialEq, Eq)]
pub enum OutputMode {
    PushPull,
    OpenDrain,
}

impl OutputMode {
    /// The value of the open-drain bit.
    pub open spec fn spec_code(self) -> u8 {
        match self {
            OutputMode::PushPull => 0u8,
            OutputMode::OpenDrain => 1u8,
        }
    }

    /// The value of the open-drain bit.
    pub fn code(self) -> (code: u8)
        ensures
            code == self.spec_code(),
    {
        match self {
            OutputMode::PushPull => 0,
            OutputMode::OpenDrain => 1,
        }
    }
}

/// Whether the input pull-up is connected.
#[derive(Clone, Copy, Debug, PartialEq, Eq)]
pub enum PullUpMode {
    Disabled,
    Enabled,
}

impl PullUpMode {
    /// The value of the pull-up bit.
    pub open spec fn spec_code(self) -> u8 {
        match self {
            PullUpMode::Disabled => 0u8,
            PullUpMode::Enabled => 1u8,
        }
    }

    /// The value of the pull-up bit.
    pub fn code(self) -> (code: u8)
        ensures
            code == self.spec_code(),
    {
        match self {
            PullUpMode::Disabled => 0,
            PullUpMode::Enabled => 1,
        }
    }
}

/// Whether a pin is read or driven.
#[derive(Clone, Copy, Debug, PartialEq, Eq)]
pub enum PortDirection {
    Input,
    Output,
}

impl PortDirection {
    /// The value of the direction bit.
    pub open spec fn spec_code(self) -> u8 {
        match self {
            PortDirection::Input => 0u8,
            PortDirection::Output => 1u8,
        }
    }

    /// The value of the direction bit.
    pub fn code(self) -> (code: u8)
        ensures
            code == self.spec_code(),
    {
        match self {
            PortDirection::Input => 0,
            PortDirection::Output => 1,
        }
    }
}

/// Pin 0 of port 1 in mode `MODE`.
pub struct P100<MODE> {
    _mode: core::marker::PhantomData<MODE>,
}

} // verus!
