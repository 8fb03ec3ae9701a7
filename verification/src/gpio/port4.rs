//! The pins of port 4.

use crate::gpio::{
    AlternateFunction, AnalogInput, AnyPin, DrainControl, DriveMode, HighZ, Input,
    InterruptEnable, InterruptEvent, Output, OutputValue, PinState, PortDirection, PortMode,
    PullDown, PullUp, PullUpMode, PushPull,
};
use crate::pfsel::port4::{
    get_pin_value, guarded, pin_register, set_pin_function, set_pin_value, spec_pin_register,
    spec_value_edit, PfsRegister, PfsStep, PinWrite, PIN_COUNT,
};
use crate::pfsel::{spec_setup_edit, PfsField, PinSetup};
use core::marker::PhantomData;
use vstd::pervasive::unreached;
use vstd::prelude::*;

verus! {

/// The peripheral that a pin of port 4 can be handed to.
#[derive(Clone, Copy, Debug, PartialEq, Eq)]
pub enum PinFunction {
    GPIO,
    AGT,
    GPTA,
    GPTB,
    SCIA,
    SCIB,
    IIC,
    RTC,
    ADC,
    CTSU,
    CAN,
    SSIE,
    USBFS,
    SDHI,
}

impl PinFunction {
    /// The code that selects the peripheral.
    pub open spec fn spec_code(self) -> u8 {
        match self {
            PinFunction::GPIO => 0u8,
            PinFunction::AGT => 1u8,
            PinFunction::GPTA => 2u8,
            PinFunction::GPTB => 3u8,
            PinFunction::SCIA => 4u8,
            PinFunction::SCIB => 5u8,
            PinFunction::IIC => 7u8,
            PinFunction::RTC => 9u8,
            PinFunction::ADC => 10u8,
            PinFunction::CTSU => 12u8,
            PinFunction::CAN => 16u8,
            PinFunction::SSIE => 18u8,
            PinFunction::USBFS => 19u8,
            PinFunction::SDHI => 21u8,
        }
    }

    /// The code that selects the peripheral.
    pub fn code(self) -> (code: u8)
        ensures
            code == self.spec_code(),
    {
        match self {
            PinFunction::GPIO => 0,
            PinFunction::AGT => 1,
            PinFunction::GPTA => 2,
            PinFunction::GPTB => 3,
            PinFunction::SCIA => 4,
            PinFunction::SCIB => 5,
            PinFunction::IIC => 7,
            PinFunction::RTC => 9,
            PinFunction::ADC => 10,
            PinFunction::CTSU => 12,
            PinFunction::CAN => 16,
            PinFunction::SSIE => 18,
            PinFunction::USBFS => 19,
            PinFunction::SDHI => 21,
        }
    }
}

/// `ra4m2_pac::Port1`, the handle of a port's registers as the peripheral
/// access crate gives it out. Nothing is claimed of what is in it: it is
/// only carried along here.
#[verifier::external_type_specification]
#[verifier::external_body]
pub struct ExPort1(ra4m2_pac::Port1);

/// Pin `N` of port 4 in state `S`. There is one value for each pin: a change
/// of state takes the old value and gives the new one.
pub struct Pin<S: PinState, const N: u8> {
    _p: PhantomData<S>,
}

impl<S: PinState, const N: u8> AnyPin for Pin<S, N> {

}

/// How a pin is set up as a push-pull output with the given drive strength.
pub open spec fn push_pull_setup(drive: DriveMode) -> PinSetup {
    PinSetup {
        direction: PortDirection::Output,
        pull_up: PullUpMode::Disabled,
        open_drain: DrainControl::PushPull,
        drive,
        event: InterruptEvent::DontCare,
        interrupt: InterruptEnable::Disabled,
        analog: AnalogInput::Disabled,
        function: PinFunction::GPIO.spec_code(),
        port_mode: PortMode::Normal,
    }
}

/// How a pin is handed to a peripheral: an open-drain output of low drive
/// strength in the peripheral's port mode.
pub open spec fn alternate_function_setup(function: PinFunction) -> PinSetup {
    PinSetup {
        direction: PortDirection::Output,
        pull_up: PullUpMode::Disabled,
        open_drain: DrainControl::OpenDrain,
        drive: DriveMode::Low,
        event: InterruptEvent::DontCare,
        interrupt: InterruptEnable::Disabled,
        analog: AnalogInput::Disabled,
        function: function.spec_code(),
        port_mode: PortMode::Alternate,
    }
}

/// How a pin is set up as an input, with or without the pull-up.
pub open spec fn input_setup(pull_up: PullUpMode) -> PinSetup {
    PinSetup {
        direction: PortDirection::Input,
        pull_up,
        open_drain: DrainControl::PushPull,
        drive: DriveMode::Low,
        event: InterruptEvent::DontCare,
        interrupt: InterruptEnable::Disabled,
        analog: AnalogInput::Disabled,
        function: PinFunction::GPIO.spec_code(),
        port_mode: PortMode::Normal,
    }
}

/// The steps that give the word of pin `pin` the settings of `setup`, under
/// write protection.
pub open spec fn setup_steps(pin: u8, setup: PinSetup) -> Seq<PfsStep> {
    guarded(PinWrite { register: spec_pin_register(pin).unwrap(), edit: spec_setup_edit(setup) })
}

/// The steps that set the output data of pin `pin`, under write protection.
pub open spec fn value_steps(pin: u8, output: OutputValue) -> Seq<PfsStep> {
    guarded(PinWrite { register: spec_pin_register(pin).unwrap(), edit: spec_value_edit(output) })
}

impl<S: PinState, const N: u8> Pin<S, N> {
    /// The port has a pin of this number.
    #[verifier::type_invariant]
    spec fn on_the_port(self) -> bool {
        N < PIN_COUNT
    }

    /// The place of the pin's word.
    pub fn register(&self) -> (register: PfsRegister)
        ensures
            N < PIN_COUNT,
            Some(register) == spec_pin_register(N),
    {
        proof {
            use_type_invariant(self);
        }
        match pin_register(N) {
            Ok(register) => register,
            Err(_) => unreached(),
        }
    }

    /// Makes the pin a push-pull output of the given drive strength. Gives
    /// the pin in its new state, and the steps that make the hardware follow.
    pub fn into_output_push_pull(self, drive_mode: DriveMode) -> (made: (
        Pin<Output<PushPull>, N>,
        [PfsStep; 5],
    ))
        ensures
            N < PIN_COUNT,
            made.1@ == setup_steps(N, push_pull_setup(drive_mode)),
    {
        proof {
            use_type_invariant(&self);
        }
        let plan = set_pin_function(
            N,
            PortDirection::Output,
            PullUpMode::Disabled,
            DrainControl::PushPull,
            drive_mode,
            InterruptEvent::DontCare,
            InterruptEnable::Disabled,
            AnalogInput::Disabled,
            PinFunction::GPIO,
            PortMode::Normal,
        );
        match plan {
            Ok(steps) => (Pin { _p: PhantomData }, steps),
            Err(_) => unreached(),
        }
    }

    /// Hands the pin to a peripheral. Gives the pin in its new state, and
    /// the steps that make the hardware follow.
    pub fn into_alternate_function(self, function: PinFunction) -> (made: (
        Pin<Output<AlternateFunction>, N>,
        [PfsStep; 5],
    ))
        ensures
            N < PIN_COUNT,
            made.1@ == setup_steps(N, alternate_function_setup(function)),
    {
        proof {
            use_type_invariant(&self);
        }
        let plan = set_pin_function(
            N,
            PortDirection::Output,
            PullUpMode::Disabled,
            DrainControl::OpenDrain,
            DriveMode::Low,
            InterruptEvent::DontCare,
            InterruptEnable::Disabled,
            AnalogInput::Disabled,
            function,
            PortMode::Alternate,
        );
        match plan {
            Ok(steps) => (Pin { _p: PhantomData }, steps),
            Err(_) => unreached(),
        }
    }

    /// Makes the pin an input with the pull-up connected. Gives the pin in
    /// its new state, and the steps that make the hardware follow.
    pub fn into_input_pull_up(self) -> (made: (Pin<Input<PullUp>, N>, [PfsStep; 5]))
        ensures
            N < PIN_COUNT,
            made.1@ == setup_steps(N, input_setup(PullUpMode::Enabled)),
    {
        proof {
            use_type_invariant(&self);
        }
        let plan = set_pin_function(
            N,
            PortDirection::Input,
            PullUpMode::Enabled,
            DrainControl::PushPull,
            DriveMode::Low,
            InterruptEvent::DontCare,
            InterruptEnable::Disabled,
            AnalogInput::Disabled,
            PinFunction::GPIO,
            PortMode::Normal,
        );
        match plan {
            Ok(steps) => (Pin { _p: PhantomData }, steps),
            Err(_) => unreached(),
        }
    }

    /// Makes the pin an input with the pull-up disconnected. Gives the pin
    /// in its new state, and the steps that make the hardware follow.
    pub fn into_input_pull_down(self) -> (made: (Pin<Input<PullDown>, N>, [PfsStep; 5]))
        ensures
            N < PIN_COUNT,
            made.1@ == setup_steps(N, input_setup(PullUpMode::Disabled)),
    {
        proof {
            use_type_invariant(&self);
        }
        let plan = set_pin_function(
            N,
            PortDirection::Input,
            PullUpMode::Disabled,
            DrainControl::PushPull,
            DriveMode::Low,
            InterruptEvent::DontCare,
            InterruptEnable::Disabled,
            AnalogInput::Disabled,
            PinFunction::GPIO,
            PortMode::Normal,
        );
        match plan {
            Ok(steps) => (Pin { _p: PhantomData }, steps),
            Err(_) => unreached(),
        }
    }
}

impl<const N: u8> Pin<Output<PushPull>, N> {
    /// The steps that make the pin drive its line high.
    pub fn set_high(&mut self) -> (steps: [PfsStep; 5])
        ensures
            steps@ == value_steps(N, OutputValue::High),
    {
        proof {
            use_type_invariant(&*self);
        }
        match set_pin_value(N, OutputValue::High) {
            Ok(steps) => steps,
            Err(_) => unreached(),
        }
    }

    /// The steps that make the pin drive its line low.
    pub fn set_low(&mut self) -> (steps: [PfsStep; 5])
        ensures
            steps@ == value_steps(N, OutputValue::Low),
    {
        proof {
            use_type_invariant(&*self);
        }
        match set_pin_value(N, OutputValue::Low) {
            Ok(steps) => steps,
            Err(_) => unreached(),
        }
    }
}

impl<const N: u8> Pin<Input<PullUp>, N> {
    /// Whether the level at the pin is high, given the pin's word.
    pub fn is_high(&self, word: u32) -> (high: bool)
        ensures
            high == (PfsField::Pidr.spec_get(word) == 1),
    {
        get_pin_value(word)
    }

    /// Whether the level at the pin is low, given the pin's word.
    pub fn is_low(&self, word: u32) -> (low: bool)
        ensures
            low == (PfsField::Pidr.spec_get(word) != 1),
    {
        !get_pin_value(word)
    }
}

impl<const N: u8> Pin<Input<PullDown>, N> {
    /// Whether the level at the pin is high, given the pin's word.
    pub fn is_high(&self, word: u32) -> (high: bool)
        ensures
            high == (PfsField::Pidr.spec_get(word) == 1),
    {
        get_pin_value(word)
    }

    /// Whether the level at the pin is low, given the pin's word.
    pub fn is_low(&self, word: u32) -> (low: bool)
        ensures
            low == (PfsField::Pidr.spec_get(word) != 1),
    {
        !get_pin_value(word)
    }
}

/// The sixteen pins of port 4, each as the reset left it.
pub struct Port4Pins {
    pub p00: Pin<Output<HighZ>, 0>,
    pub p01: Pin<Output<HighZ>, 1>,
    pub p02: Pin<Output<HighZ>, 2>,
    pub p03: Pin<Output<HighZ>, 3>,
    pub p04: Pin<Output<HighZ>, 4>,
    pub p05: Pin<Output<HighZ>, 5>,
    pub p06: Pin<Output<HighZ>, 6>,
    pub p07: Pin<Output<HighZ>, 7>,
    pub p08: Pin<Output<HighZ>, 8>,
    pub p09: Pin<Output<HighZ>, 9>,
    pub p10: Pin<Output<HighZ>, 10>,
    pub p11: Pin<Output<HighZ>, 11>,
    pub p12: Pin<Output<HighZ>, 12>,
    pub p13: Pin<Output<HighZ>, 13>,
    pub p14: Pin<Output<HighZ>, 14>,
    pub p15: Pin<Output<HighZ>, 15>,
}

/// Port 4, not yet split into its pins.
pub struct Port4 {
    _port4: ra4m2_pac::Port1,
}

impl Port4 {
    /// The port's registers.
    pub closed spec fn spec_registers(&self) -> ra4m2_pac::Port1 {
        self._port4
    }

    /// Takes the port's registers.
    pub fn new(port4: ra4m2_pac::Port1) -> (port: Self)
        ensures
            port.spec_registers() == port4,
    {
        Port4 { _port4: port4 }
    }

    /// Gives the port up for its sixteen pins.
    pub fn split(self) -> Port4Pins {
        Port4Pins {
            p00: Pin { _p: PhantomData },
            p01: Pin { _p: PhantomData },
            p02: Pin { _p: PhantomData },
            p03: Pin { _p: PhantomData },
            p04: Pin { _p: PhantomData },
            p05: Pin { _p: PhantomData },
            p06: Pin { _p: PhantomData },
            p07: Pin { _p: PhantomData },
            p08: Pin { _p: PhantomData },
            p09: Pin { _p: PhantomData },
            p10: Pin { _p: PhantomData },
            p11: Pin { _p: PhantomData },
            p12: Pin { _p: PhantomData },
            p13: Pin { _p: PhantomData },
            p14: Pin { _p: PhantomData },
            p15: Pin { _p: PhantomData },
        }
    }
}

} // verus!
