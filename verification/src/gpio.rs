//! Pins: the codes of their settings, and the states a pin can be in.
//!
//! A pin's state is part of its type. An operation that makes no sense in a
//! state, such as setting the level of an input, does not exist for it.

pub mod port4;

use crate::sealed::Sealed;
use vstd::prelude::*;

verus! {

/// One of the ports of the device.
#[derive(Clone, Copy, Debug, PartialEq, Eq)]
pub enum Ports {
    Port0,
    Port1,
    Port2,
    Port3,
    Port4,
    Port5,
    Port6,
    Port7,
}

impl Ports {
    /// The number of the port.
    pub open spec fn spec_code(self) -> u8 {
        match self {
            Ports::Port0 => 0u8,
            Ports::Port1 => 1u8,
            Ports::Port2 => 2u8,
            Ports::Port3 => 3u8,
            Ports::Port4 => 4u8,
            Ports::Port5 => 5u8,
            Ports::Port6 => 6u8,
            Ports::Port7 => 7u8,
        }
    }

    /// The number of the port.
    pub fn code(self) -> (code: u8)
        ensures
            code == self.spec_code(),
    {
        match self {
            Ports::Port0 => 0,
            Ports::Port1 => 1,
            Ports::Port2 => 2,
            Ports::Port3 => 3,
            Ports::Port4 => 4,
            Ports::Port5 => 5,
            Ports::Port6 => 6,
            Ports::Port7 => 7,
        }
    }
}

/// Whether a pin is read or driven.
#[derive(Clone, Copy, Debug, PartialEq, Eq)]
pub enum PortDirection {
    Input,
    Output,
}

impl PortDirection {
    /// The value of the direction bit.
    pub open spec fn spec_code(self) -> u8 {
        match self {
            PortDirection::Input => 0u8,
            PortDirection::Output => 1u8,
        }
    }

    /// The value of the direction bit.
    pub fn code(self) -> (code: u8)
        ensures
            code == self.spec_code(),
    {
        match self {
            PortDirection::Input => 0,
            PortDirection::Output => 1,
        }
    }
}

/// The level that an output pin drives.
#[derive(Clone, Copy, Debug, PartialEq, Eq)]
pub enum OutputValue {
    Low,
    High,
}

impl OutputValue {
    /// The value of the output-data bit.
    pub open spec fn spec_code(self) -> u8 {
        match self {
            OutputValue::Low => 0u8,
            OutputValue::High => 1u8,
        }
    }

    /// The value of the output-data bit.
    pub fn code(self) -> (code: u8)
        ensures
            code == self.spec_code(),
    {
        match self {
            OutputValue::Low => 0,
            OutputValue::High => 1,
        }
    }
}

/// Whether the input pull-up is connected.
#[derive(Clone, Copy, Debug, PartialEq, Eq)]
pub enum PullUpMode {
    Disabled,
    Enabled,
}

impl PullUpMode {
    /// The value of the pull-up bit.
    pub open spec fn spec_code(self) -> u8 {
        match self {
            PullUpMode::Disabled => 0u8,
            PullUpMode::Enabled => 1u8,
        }
    }

    /// The value of the pull-up bit.
    pub fn code(self) -> (code: u8)
        ensures
            code == self.spec_code(),
    {
        match self {
            PullUpMode::Disabled => 0,
            PullUpMode::Enabled => 1,
        }
    }
}

/// How an output pin drives the line.
#[derive(Clone, Copy, Debug, PartialEq, Eq)]
pub enum DrainControl {
    PushPull,
    OpenDrain,
}

impl DrainControl {
    /// The value of the open-drain bit.
    pub open spec fn spec_code(self) -> u8 {
        match self {
            DrainControl::PushPull => 0u8,
            DrainControl::OpenDrain => 1u8,
        }
    }

    /// The value of the open-drain bit.
    pub fn code(self) -> (code: u8)
        ensures
            code == self.spec_code(),
    {
        match self {
            DrainControl::PushPull => 0,
            DrainControl::OpenDrain => 1,
        }
    }
}

/// How strongly an output pin drives the line.
#[derive(Clone, Copy, Debug, PartialEq, Eq)]
pub enum DriveMode {
    Low,
    Middle,
    High,
}

impl DriveMode {
    /// The drive-strength code.
    pub open spec fn spec_code(self) -> u8 {
        match self {
            DriveMode::Low => 0u8,
            DriveMode::Middle => 1u8,
            DriveMode::High => 4u8,
        }
    }

    /// The drive-strength code.
    pub fn code(self) -> (code: u8)
        ensures
            code == self.spec_code(),
    {
        match self {
            DriveMode::Low => 0,
            DriveMode::Middle => 1,
            DriveMode::High => 4,
        }
    }
}

/// Which edge of the pin raises an event.
#[derive(Clone, Copy, Debug, PartialEq, Eq)]
pub enum InterruptEvent {
    DontCare,
    RisingEdge,
    FallingEdge,
    BothEdges,
}

impl InterruptEvent {
    /// The edge-select code.
    pub open spec fn spec_code(self) -> u8 {
        match self {
            InterruptEvent::DontCare => 0u8,
            InterruptEvent::RisingEdge => 1u8,
            InterruptEvent::FallingEdge => 2u8,
            InterruptEvent::BothEdges => 3u8,
        }
    }

    /// The edge-select code.
    pub fn code(self) -> (code: u8)
        ensures
            code == self.spec_code(),
    {
        match self {
            InterruptEvent::DontCare => 0,
            InterruptEvent::RisingEdge => 1,
            InterruptEvent::FallingEdge => 2,
            InterruptEvent::BothEdges => 3,
        }
    }
}

/// Whether the pin is used as an interrupt input.
#[derive(Clone, Copy, Debug, PartialEq, Eq)]
pub enum InterruptEnable {
    Disabled,
    Enabled,
}

impl InterruptEnable {
    /// The value of the interrupt-select bit.
    pub open spec fn spec_code(self) -> u8 {
        match self {
            InterruptEnable::Disabled => 0u8,
            InterruptEnable::Enabled => 1u8,
        }
    }

    /// The value of the interrupt-select bit.
    pub fn code(self) -> (code: u8)
        ensures
            code == self.spec_code(),
    {
        match self {
            InterruptEnable::Disabled => 0,
            InterruptEnable::Enabled => 1,
        }
    }
}

/// Whether the pin is used as an analog input.
#[derive(Clone, Copy, Debug, PartialEq, Eq)]
pub enum AnalogInput {
    Disabled,
    Enabled,
}

impl AnalogInput {
    /// The value of the analog-select bit.
    pub open spec fn spec_code(self) -> u8 {
        match self {
            AnalogInput::Disabled => 0u8,
            AnalogInput::Enabled => 1u8,
        }
    }

    /// The value of the analog-select bit.
    pub fn code(self) -> (code: u8)
        ensures
            code == self.spec_code(),
    {
        match self {
            AnalogInput::Disabled => 0,
            AnalogInput::Enabled => 1,
        }
    }
}

/// Whether the pin is a general input/output or belongs to a peripheral.
#[derive(Clone, Copy, Debug, PartialEq, Eq)]
pub enum PortMode {
    Normal,
    Alternate,
}

impl PortMode {
    /// The value of the port-mode bit.
    pub open spec fn spec_code(self) -> u8 {
        match self {
            PortMode::Normal => 0u8,
            PortMode::Alternate => 1u8,
        }
    }

    /// The value of the port-mode bit.
    pub fn code(self) -> (code: u8)
        ensures
            code == self.spec_code(),
    {
        match self {
            PortMode::Normal => 0,
            PortMode::Alternate => 1,
        }
    }
}

/// Implemented by every pin, whatever its state.
pub trait AnyPin {

}

/// The states a pin can be in.
pub trait PinState: Sealed {

}

/// The ways a pin can be an input.
pub trait InputState: Sealed {

}

/// The ways a pin can be an output.
pub trait OutputState: Sealed {

}

/// The state of a pin that drives its line, in the way `S` says.
pub struct Output<S: OutputState> {
    _state: core::marker::PhantomData<S>,
}

/// The output drives the line both high and low.
pub struct PushPull {}

/// The output only pulls the line low.
pub struct OpenDrain {}

/// The pin belongs to a peripheral.
pub struct AlternateFunction {}

/// The pin is as the reset left it: it drives nothing.
pub struct HighZ {}

impl<S: OutputState> PinState for Output<S> {

}

impl<S: OutputState> Sealed for Output<S> {

}

impl OutputState for PushPull {

}

impl OutputState for OpenDrain {

}

impl OutputState for AlternateFunction {

}

impl OutputState for HighZ {

}

impl Sealed for PushPull {

}

impl Sealed for OpenDrain {

}

impl Sealed for AlternateFunction {

}

impl Sealed for HighZ {

}

/// The state of a pin that is read, with the pull that `S` says.
pub struct Input<S: InputState> {
    _state: core::marker::PhantomData<S>,
}

/// The input is pulled up.
pub struct PullUp {}

/// The input is pulled down.
pub struct PullDown {}

/// The input is not pulled either way.
pub struct Floating {}

impl<S: InputState> PinState for Input<S> {

}

impl<S: InputState> Sealed for Input<S> {

}

impl InputState for PullUp {

}

impl InputState for PullDown {

}

impl InputState for Floating {

}

impl Sealed for PullUp {

}

impl Sealed for PullDown {

}

impl Sealed for Floating {

}

} // verus!
