//! The values a pin can be asked to take and the values a device reports.

use vstd::prelude::*;

verus! {

/// Firmware version announced by the device's banner.
#[derive(Clone, Copy, PartialEq, Eq, Structural, Debug)]
pub enum PicoGPIOVersion {
    V1_0,
    Unknown,
}

/// Last state of a pin that the device confirmed.
#[derive(Clone, Copy, PartialEq, Eq, Structural, Debug)]
pub enum PinValueRead {
    /// Released; the level is known only after a floating read was answered.
    Floating(Option<bool>),
    Analog(u32),
    Digital(bool),
    PWM(u32),
}

/// Last state of a pin that the host asked for.
#[derive(Clone, Copy, PartialEq, Eq, Structural, Debug)]
pub enum PinValueWrite {
    Floating,
    Digital(bool),
    PWM(u32),
}

/// The ways a pin can be read.
#[derive(Clone, Copy, PartialEq, Eq, Structural, Debug)]
pub enum PinInput {
    Analog,
    Floating,
    PDown,
    PUp,
}

impl PinValueRead {
    /// Whether a confirmed value answers a written one: any floating state
    /// answers `Floating`, digital and PWM values must be equal.
    pub open spec fn spec_matches(self, written: PinValueWrite) -> bool {
        match (self, written) {
            (PinValueRead::Floating(_), PinValueWrite::Floating) => true,
            (PinValueRead::Digital(a), PinValueWrite::Digital(b)) => a == b,
            (PinValueRead::PWM(a), PinValueWrite::PWM(b)) => a == b,
            _ => false,
        }
    }

    /// Whether a confirmed value is of the kind that a read of `asked` yields.
    pub open spec fn spec_matches_in(self, asked: PinInput) -> bool {
        match asked {
            PinInput::Floating => self is Floating,
            PinInput::Analog => self is Analog,
            PinInput::PDown => self is Digital,
            PinInput::PUp => self is Digital,
        }
    }

    /// Whether this confirmed value answers the written one.
    pub fn matches(&self, written: &PinValueWrite) -> (r: bool)
        ensures
            r == self.spec_matches(*written),
    {
        match (*self, *written) {
            (PinValueRead::Floating(_), PinValueWrite::Floating) => true,
            (PinValueRead::Digital(a), PinValueWrite::Digital(b)) => a == b,
            (PinValueRead::PWM(a), PinValueWrite::PWM(b)) => a == b,
            _ => false,
        }
    }

    /// Whether this confirmed value is of the kind that was asked for.
    pub fn matches_in(&self, asked: &PinInput) -> (r: bool)
        ensures
            r == self.spec_matches_in(*asked),
    {
        match (*self, *asked) {
            (PinValueRead::Floating(_), PinInput::Floating) => true,
            (PinValueRead::Analog(_), PinInput::Analog) => true,
            (PinValueRead::Digital(_), PinInput::PDown) => true,
            (PinValueRead::Digital(_), PinInput::PUp) => true,
            _ => false,
        }
    }
}

} // verus!
