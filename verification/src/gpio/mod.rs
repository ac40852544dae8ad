//! Abstractions for GPIO ports: pin configuration values and the bookkeeping of which pins
//! of a port are in use.

use vstd::prelude::*;

verus! {

/// The different possible modes of a GPIO pin.
#[derive(Debug, Clone, Copy, PartialEq, Eq, Structural)]
pub enum Mode {
    /// Use the pin for receiving data.
    Input,
    /// Use the pin for sending data.
    Output,
    /// Activate an alternate function of the pin to make it usable to some connected device.
    Alternate,
    /// Use the pin in analog mode.
    Analog,
}

/// Pull the pin value up or down.
#[derive(Debug, Clone, Copy, PartialEq, Eq, Structural)]
pub enum Resistor {
    /// Don't pull the value.
    NoPull,
    /// Pull the value to 1 if no data is sent/received.
    PullUp,
    /// Pull the value to 0 if no data is sent/received.
    PullDown,
}

/// The output mode of the pin.
#[derive(Debug, Clone, Copy, PartialEq, Eq, Structural)]
pub enum OutputType {
    /// Use push-pull mode.
    PushPull,
    /// Use open drain mode.
    OpenDrain,
}

/// The different output speeds.
#[derive(Debug, Clone, Copy, PartialEq, Eq, Structural)]
pub enum OutputSpeed {
    /// Low speed.
    Low,
    /// Medium speed.
    Medium,
    /// High speed.
    High,
    /// Very high speed.
    VeryHigh,
}

/// The possible alternate functions.
///
/// The alternate function number that a device uses is specified in the manual.
#[derive(Debug, Clone, Copy, PartialEq, Eq, Structural)]
pub enum AlternateFunction {
    AF0,
    AF1,
    AF2,
    AF3,
    AF4,
    AF5,
    AF6,
    AF7,
    AF8,
    AF9,
    AF10,
    AF11,
    AF12,
    AF13,
    AF14,
    AF15,
}

/// The number of an alternate function.
pub open spec fn alternate_function_number(af: AlternateFunction) -> nat {
    match af {
            AlternateFunction::AF0 => 0,
            AlternateFunction::AF1 => 1,
            AlternateFunction::AF2 => 2,
            AlternateFunction::AF3 => 3,
            AlternateFunction::AF4 => 4,
            AlternateFunction::AF5 => 5,
            AlternateFunction::AF6 => 6,
            AlternateFunction::AF7 => 7,
            AlternateFunction::AF8 => 8,
            AlternateFunction::AF9 => 9,
            AlternateFunction::AF10 => 10,
            AlternateFunction::AF11 => 11,
            AlternateFunction::AF12 => 12,
            AlternateFunction::AF13 => 13,
            AlternateFunction::AF14 => 14,
            AlternateFunction::AF15 => 15,
    }
}

/// The 16 possible pin numbers.
#[derive(Debug, Clone, Copy, PartialEq, Eq, Structural)]
pub enum PinNumber {
    Pin0,
    Pin1,
    Pin2,
    Pin3,
    Pin4,
    Pin5,
    Pin6,
    Pin7,
    Pin8,
    Pin9,
    Pin10,
    Pin11,
    Pin12,
    Pin13,
    Pin14,
    Pin15,
}

/// The index of a pin in its port.
pub open spec fn pin_index(pin: PinNumber) -> nat {
    match pin {
            PinNumber::Pin0 => 0,
            PinNumber::Pin1 => 1,
            PinNumber::Pin2 => 2,
            PinNumber::Pin3 => 3,
            PinNumber::Pin4 => 4,
            PinNumber::Pin5 => 5,
            PinNumber::Pin6 => 6,
            PinNumber::Pin7 => 7,
            PinNumber::Pin8 => 8,
            PinNumber::Pin9 => 9,
            PinNumber::Pin10 => 10,
            PinNumber::Pin11 => 11,
            PinNumber::Pin12 => 12,
            PinNumber::Pin13 => 13,
            PinNumber::Pin14 => 14,
            PinNumber::Pin15 => 15,
    }
}

impl PinNumber {
    /// The index of the pin in its port (0 to 15).
    pub fn index(&self) -> (r: usize)
        ensures
            r == pin_index(*self),
            r < 16,
    {
        match *self {
            PinNumber::Pin0 => 0,
            PinNumber::Pin1 => 1,
            PinNumber::Pin2 => 2,
            PinNumber::Pin3 => 3,
            PinNumber::Pin4 => 4,
            PinNumber::Pin5 => 5,
            PinNumber::Pin6 => 6,
            PinNumber::Pin7 => 7,
            PinNumber::Pin8 => 8,
            PinNumber::Pin9 => 9,
            PinNumber::Pin10 => 10,
            PinNumber::Pin11 => 11,
            PinNumber::Pin12 => 12,
            PinNumber::Pin13 => 13,
            PinNumber::Pin14 => 14,
            PinNumber::Pin15 => 15,
        }
    }

    /// The pin with the given index.
    pub fn from_index(index: usize) -> (r: PinNumber)
        requires
            index < 16,
        ensures
            pin_index(r) == index,
    {
        if index == 0 {
            PinNumber::Pin0
        } else if index == 1 {
            PinNumber::Pin1
        } else if index == 2 {
            PinNumber::Pin2
        } else if index == 3 {
            PinNumber::Pin3
        } else if index == 4 {
            PinNumber::Pin4
        } else if index == 5 {
            PinNumber::Pin5
        } else if index == 6 {
            PinNumber::Pin6
        } else if index == 7 {
            PinNumber::Pin7
        } else if index == 8 {
            PinNumber::Pin8
        } else if index == 9 {
            PinNumber::Pin9
        } else if index == 10 {
            PinNumber::Pin10
        } else if index == 11 {
            PinNumber::Pin11
        } else if index == 12 {
            PinNumber::Pin12
        } else if index == 13 {
            PinNumber::Pin13
        } else if index == 14 {
            PinNumber::Pin14
        } else {
            PinNumber::Pin15
        }
    }
}

/// Distinct pins have distinct indices.
pub proof fn lemma_pin_index_injective(a: PinNumber, b: PinNumber)
    ensures
        pin_index(a) == pin_index(b) <==> a == b,
{
}

/// Every pin index is below 16.
pub proof fn lemma_pin_index_bound(pin: PinNumber)
    ensures
        pin_index(pin) < 16,
{
}

/// The configuration of one pin in the registers of its port.
#[derive(Debug, Clone, Copy, PartialEq, Eq, Structural)]
pub struct PinConfig {
    /// The mode (MODER).
    pub mode: Mode,
    /// The pull-up/pull-down resistor (PUPDR).
    pub resistor: Resistor,
    /// The output type (OTYPER).
    pub out_type: OutputType,
    /// The output speed (OSPEEDR).
    pub out_speed: OutputSpeed,
    /// The alternate function (AFRL/AFRH).
    pub alternate_fn: AlternateFunction,
}

impl PinConfig {
    /// This configuration with the mode replaced.
    pub open spec fn with_mode(self, mode: Mode) -> PinConfig {
        PinConfig { mode: mode, ..self }
    }

    /// This configuration with the resistor replaced.
    pub open spec fn with_resistor(self, resistor: Resistor) -> PinConfig {
        PinConfig { resistor: resistor, ..self }
    }

    /// This configuration with the output type replaced.
    pub open spec fn with_out_type(self, out_type: OutputType) -> PinConfig {
        PinConfig { out_type: out_type, ..self }
    }

    /// This configuration with the output speed replaced.
    pub open spec fn with_out_speed(self, out_speed: OutputSpeed) -> PinConfig {
        PinConfig { out_speed: out_speed, ..self }
    }

    /// This configuration with the alternate function replaced.
    pub open spec fn with_alternate_fn(self, alternate_fn: AlternateFunction) -> PinConfig {
        PinConfig { alternate_fn: alternate_fn, ..self }
    }
}

/// How a pin is set up when it is reserved.
#[derive(Debug, Clone, Copy, PartialEq, Eq, Structural)]
pub enum PinSetting {
    /// An input with the given resistor.
    Input(Resistor),
    /// An output with the given type, speed and resistor.
    Output(OutputType, OutputSpeed, Resistor),
    /// An alternate function with the given output type, speed and resistor.
    Alternate(AlternateFunction, OutputType, OutputSpeed, Resistor),
}

/// The configuration of a pin after it is set up with `setting`, starting from `config`: an
/// input sets mode and resistor, an output also type and speed, and an alternate function all
/// five fields.
pub open spec fn apply_setting(setting: PinSetting, config: PinConfig) -> PinConfig {
    match setting {
        PinSetting::Input(resistor) => config.with_mode(Mode::Input).with_resistor(resistor),
        PinSetting::Output(out_type, out_speed, resistor) => config.with_mode(
            Mode::Output,
        ).with_out_type(out_type).with_out_speed(out_speed).with_resistor(resistor),
        PinSetting::Alternate(alternate_fn, out_type, out_speed, resistor) => PinConfig {
            mode: Mode::Alternate,
            resistor: resistor,
            out_type: out_type,
            out_speed: out_speed,
            alternate_fn: alternate_fn,
        },
    }
}

/// Errors of the GPIO abstractions.
#[derive(Debug, Clone, Copy, PartialEq, Eq, Structural)]
pub enum Error {
    /// The pin is already in use.
    PinAlreadyInUse(PinNumber),
}

/// High level abstraction of a GPIO pin configured as input.
pub trait InputPin: Sized {
    /// Whether reading the pin can give `value`: the implementation's account of the pin (the
    /// hardware may change it between reads).
    spec fn reads(&self, value: bool) -> bool;

    /// Get the current input value of the pin.
    fn get(&self) -> (r: bool)
        ensures
            self.reads(r),
    ;
}

/// High level abstraction of a GPIO pin configured as output.
pub trait OutputPin: Sized {
    /// Whether reading the output value of the pin can give `value`: the implementation's
    /// account of the pin.
    spec fn reads(&self, value: bool) -> bool;

    /// Whether the last write set the output value of the pin to `value`.
    spec fn written(&self, value: bool) -> bool;

    /// Get the current output value of the pin.
    fn get(&self) -> (r: bool)
        ensures
            self.reads(r),
    ;

    /// Set the output value of the pin.
    fn set(&mut self, value: bool)
        ensures
            final(self).written(value),
    ;

    /// Toggle the output value of the pin: set it to the negation of its current value.
    fn toggle(&mut self)
        ensures
            exists|current: bool| #[trigger] old(self).reads(current) && final(self).written(!current),
    {
        let current = self.get();
        self.set(!current);
    }
}

} // verus!

pub mod port;

pub use self::port::{GpioPort, InputPinImpl, OutputPinImpl, RegisterBlockTrait};
