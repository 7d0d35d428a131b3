use vstd::prelude::*;
use vstd::string::StringExecFns;

use crate::text::{around_int, int_text, with_int};

verus! {

/// What can go wrong in a driver operation.
#[derive(Clone, Copy, Debug, PartialEq, Eq, Structural)]
pub enum GpioError {
    InvalidPin(i32),
    Setup,
    Direction(i32),
    SetLevel(i32),
    Terminate,
    Device,
    InvalidDevice(i32),
    NotInitialized,
    Clear(i32),
    PullDown(i32),
    PullUp(i32),
}

/// The short human message of an error.
pub open spec fn error_message(e: GpioError) -> Seq<char> {
    match e {
        GpioError::Setup => "Failed to Initialize"@,
        GpioError::Direction(pin) => "Failed to set direction "@ + int_text(pin as int),
        GpioError::SetLevel(pin) => "Failed to set high - low "@ + int_text(pin as int),
        GpioError::Terminate => "Failed to terminate"@,
        GpioError::Device => "Failed to switch device"@,
        GpioError::InvalidDevice(d) => "Invalid device "@ + int_text(d as int),
        GpioError::InvalidPin(pin) => "Invalid gpio pin "@ + int_text(pin as int),
        GpioError::NotInitialized => "GPIO Not Initialized"@,
        GpioError::Clear(pin) => "Failed to clear GPIO "@ + int_text(pin as int),
        GpioError::PullDown(pin) => "Failed to set "@ + int_text(pin as int) + " to pull down"@,
        GpioError::PullUp(pin) => "Failed to set "@ + int_text(pin as int) + " to pull up"@,
    }
}

impl GpioError {
    /// The short human message of this error.
    pub fn message(&self) -> (r: String)
        ensures
            r@ == error_message(*self),
    {
        match *self {
            GpioError::Setup => String::from_str("Failed to Initialize"),
            GpioError::Direction(pin) => with_int("Failed to set direction ", pin),
            GpioError::SetLevel(pin) => with_int("Failed to set high - low ", pin),
            GpioError::Terminate => String::from_str("Failed to terminate"),
            GpioError::Device => String::from_str("Failed to switch device"),
            GpioError::InvalidDevice(d) => with_int("Invalid device ", d),
            GpioError::InvalidPin(pin) => with_int("Invalid gpio pin ", pin),
            GpioError::NotInitialized => String::from_str("GPIO Not Initialized"),
            GpioError::Clear(pin) => with_int("Failed to clear GPIO ", pin),
            GpioError::PullDown(pin) => around_int("Failed to set ", pin, " to pull down"),
            GpioError::PullUp(pin) => around_int("Failed to set ", pin, " to pull up"),
        }
    }
}

} // verus!
