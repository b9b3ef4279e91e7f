//! The register map of the IS31FL3235A and the codes its registers take.
//!
//! Every register is one byte wide and is written by a two-byte bus
//! transaction: the register's address, then the value to store.

use vstd::prelude::*;

verus! {

/// Number of output channels of the device. Channels are counted from 1.
pub const CH_NUM: u8 = 28;

/// Whether `channel` names one of the device's outputs.
pub open spec fn valid_channel(channel: u8) -> bool {
    1 <= channel <= CH_NUM
}

/// The registers the driver writes.
#[derive(Debug, Clone, Copy, PartialEq, Eq)]
pub enum Register {
    /// Software shutdown control. While the device is shut down all
    /// registers keep their contents.
    Shutdown,
    /// PWM duty cycle of channel 1; those of channels 2 to 28 follow it.
    Pwm,
    /// Writing here moves the pending PWM and control values to the outputs.
    Update,
    /// Output enable of channel 1; those of channels 2 to 28 follow it.
    LedControl,
    /// Output current scaling, common to all channels.
    GlobalControl,
    /// PWM carrier frequency, common to all channels.
    OutputFrequency,
    /// Writing here returns every register to its power-on default.
    Reset,
}

impl Register {
    /// The address of the register inside the device.
    pub open spec fn spec_address(self) -> u8 {
        match self {
            Register::Shutdown => 0x00,
            Register::Pwm => 0x05,
            Register::Update => 0x25,
            Register::LedControl => 0x2A,
            Register::GlobalControl => 0x4A,
            Register::OutputFrequency => 0x4B,
            Register::Reset => 0x4F,
        }
    }

    /// The address of the register inside the device.
    #[verifier::when_used_as_spec(spec_address)]
    pub fn address(self) -> (a: u8)
        ensures
            a == self.spec_address(),
    {
        match self {
            Register::Shutdown => 0x00,
            Register::Pwm => 0x05,
            Register::Update => 0x25,
            Register::LedControl => 0x2A,
            Register::GlobalControl => 0x4A,
            Register::OutputFrequency => 0x4B,
            Register::Reset => 0x4F,
        }
    }
}

/// The address of the PWM register of `channel`: the registers of channels
/// 1 to 28 lie in a row from `Register::Pwm` on.
pub open spec fn pwm_register(channel: u8) -> u8
    recommends
        valid_channel(channel),
{
    (Register::Pwm.spec_address() + channel - 1) as u8
}

/// The address of the output enable register of `channel`: the registers of
/// channels 1 to 28 lie in a row from `Register::LedControl` on.
pub open spec fn led_control_register(channel: u8) -> u8
    recommends
        valid_channel(channel),
{
    (Register::LedControl.spec_address() + channel - 1) as u8
}

/// Codes of the shutdown register.
#[derive(Debug, Clone, Copy, PartialEq, Eq)]
pub enum SoftwareShutdownMode {
    /// All outputs off; register contents are kept.
    Shutdown,
    /// Normal operation.
    Normal,
}

impl SoftwareShutdownMode {
    /// The byte that selects this mode.
    pub open spec fn spec_value(self) -> u8 {
        match self {
            SoftwareShutdownMode::Shutdown => 0x00,
            SoftwareShutdownMode::Normal => 0x01,
        }
    }

    /// The byte that selects this mode.
    #[verifier::when_used_as_spec(spec_value)]
    pub fn value(self) -> (v: u8)
        ensures
            v == self.spec_value(),
    {
        match self {
            SoftwareShutdownMode::Shutdown => 0x00,
            SoftwareShutdownMode::Normal => 0x01,
        }
    }
}

/// Codes of the global control register: the output current as a fraction
/// of the maximum set by the external resistor.
#[derive(Debug, Clone, Copy, PartialEq, Eq)]
pub enum OutputCurrent {
    /// The maximum current.
    Max,
    /// Half of the maximum.
    Max2,
    /// A third of the maximum.
    Max3,
    /// A quarter of the maximum.
    Max4,
}

impl OutputCurrent {
    /// The byte that selects this current.
    pub open spec fn spec_value(self) -> u8 {
        match self {
            OutputCurrent::Max => 0x0,
            OutputCurrent::Max2 => 0x1,
            OutputCurrent::Max3 => 0x2,
            OutputCurrent::Max4 => 0x3,
        }
    }

    /// The byte that selects this current.
    #[verifier::when_used_as_spec(spec_value)]
    pub fn value(self) -> (v: u8)
        ensures
            v == self.spec_value(),
    {
        match self {
            OutputCurrent::Max => 0x0,
            OutputCurrent::Max2 => 0x1,
            OutputCurrent::Max3 => 0x2,
            OutputCurrent::Max4 => 0x3,
        }
    }
}

/// Codes of the output frequency register: the PWM carrier frequency.
#[derive(Debug, Clone, Copy, PartialEq, Eq)]
pub enum OutputFrequency {
    /// About 3 Hz.
    Freq3Hz,
    /// About 22 kHz.
    Freq22kHz,
}

impl OutputFrequency {
    /// The byte that selects this frequency.
    pub open spec fn spec_value(self) -> u8 {
        match self {
            OutputFrequency::Freq3Hz => 0x0,
            OutputFrequency::Freq22kHz => 0x1,
        }
    }

    /// The byte that selects this frequency.
    #[verifier::when_used_as_spec(spec_value)]
    pub fn value(self) -> (v: u8)
        ensures
            v == self.spec_value(),
    {
        match self {
            OutputFrequency::Freq3Hz => 0x0,
            OutputFrequency::Freq22kHz => 0x1,
        }
    }
}

} // verus!
