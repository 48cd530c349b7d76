//! Core trait interface for Real-Time Clock (RTC) devices.
//!
//! [`Rtc`] is the platform-independent entry point for reading and writing
//! date/time values on hardware RTC chips. Drivers implement it with their
//! own error type, and validate that the [`DateTime`] values they accept fall
//! within the range their chip supports (for example 2000-2099); the
//! `DateTime` type itself only guarantees an existing calendar instant from
//! 1970 onwards.

use vstd::prelude::*;
use crate::datetime::DateTime;
use crate::error::ErrorType;

verus! {

/// Core trait for Real-Time Clock (RTC) devices.
///
/// This trait provides a platform-agnostic interface for reading and
/// writing date/time values from hardware RTC chips.
///
/// Each RTC implementation should define an associated error type for
/// hardware-specific errors, and must validate that provided values fall
/// within the supported range of the device.
pub trait Rtc: ErrorType {
    /// Get the current date and time atomically.
    ///
    /// Returns `Self::Error` if communication with the RTC fails.
    fn get_datetime(&mut self) -> Result<DateTime, Self::Error>;

    /// Set the current date and time atomically.
    ///
    /// Returns `Self::Error` if communication with the RTC fails or if the
    /// provided `DateTime` is out of range for this device.
    fn set_datetime(&mut self, datetime: &DateTime) -> Result<(), Self::Error>;
}

/// Blanket impl: a mutable reference to an RTC is itself an RTC, so callers
/// can own the device or borrow it as they prefer.
impl<T: Rtc + ?Sized> Rtc for &mut T {
    fn get_datetime(&mut self) -> Result<DateTime, Self::Error> {
        T::get_datetime(self)
    }

    fn set_datetime(&mut self, datetime: &DateTime) -> Result<(), Self::Error> {
        T::set_datetime(self, datetime)
    }
}

} // verus!
