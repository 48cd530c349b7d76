//! Error types and classification for RTC drivers.
//!
//! Drivers report hardware-specific errors; the [`Error`] trait maps each of
//! them into one of the standard categories of [`ErrorKind`], so that
//! applications can react uniformly across different RTC chips.

use vstd::prelude::*;

verus! {

/// Common categories of errors for RTC drivers.
#[derive(Debug, Clone, Copy, PartialEq, Eq, Structural)]
pub enum ErrorKind {
    /// Underlying bus error (I2C, SPI, etc.)
    Bus,
    /// Invalid date/time value provided
    InvalidDateTime,
    /// Invalid alarm configuration
    InvalidAlarmConfig,
    /// The specified square wave frequency is not supported by the RTC
    UnsupportedSqwFrequency,
    /// Invalid register address
    InvalidAddress,
    /// NVRAM address out of bounds
    NvramOutOfBounds,
    /// NVRAM is write protected
    NvramWriteProtected,
    /// Any other error not covered above
    Other,
}

impl ErrorKind {
    /// The human-readable description of this error category.
    pub open spec fn spec_message(self) -> Seq<char> {
        match self {
            ErrorKind::Bus => "Underlying bus error occurred"@,
            ErrorKind::InvalidDateTime => "Invalid datetime value provided"@,
            ErrorKind::InvalidAlarmConfig => "Invalid alarm configuration"@,
            ErrorKind::UnsupportedSqwFrequency
                => "The specified square wave frequency is not supported by the RTC"@,
            ErrorKind::InvalidAddress => "Invalid register address"@,
            ErrorKind::NvramOutOfBounds => "NVRAM address out of bounds"@,
            ErrorKind::NvramWriteProtected => "NVRAM is write protected"@,
            ErrorKind::Other
                => "A different error occurred. The original error may contain more information"@,
        }
    }

    /// Get the human-readable description of this error category.
    pub fn message(&self) -> (r: &'static str)
        ensures
            r@ == self.spec_message(),
    {
        match self {
            ErrorKind::Bus => "Underlying bus error occurred",
            ErrorKind::InvalidDateTime => "Invalid datetime value provided",
            ErrorKind::InvalidAlarmConfig => "Invalid alarm configuration",
            ErrorKind::UnsupportedSqwFrequency
                => "The specified square wave frequency is not supported by the RTC",
            ErrorKind::InvalidAddress => "Invalid register address",
            ErrorKind::NvramOutOfBounds => "NVRAM address out of bounds",
            ErrorKind::NvramWriteProtected => "NVRAM is write protected",
            ErrorKind::Other
                => "A different error occurred. The original error may contain more information",
        }
    }
}

/// Trait that RTC driver error types should implement.
///
/// Allows converting driver-specific errors into standard categories.
/// Drivers can either define custom error types or use `ErrorKind` directly.
pub trait Error: core::fmt::Debug {
    /// Map a driver-specific error into a general category.
    fn kind(&self) -> ErrorKind;
}

/// RTC error type trait.
///
/// This just defines the error type, to be used by the other traits.
pub trait ErrorType {
    /// Error type
    type Error: Error;
}

/// Allows `ErrorKind` to be used directly as an error type.
///
/// Simple drivers can use `type Error = ErrorKind` instead of defining
/// custom errors.
impl Error for ErrorKind {
    fn kind(&self) -> (r: ErrorKind) {
        *self
    }
}

/// Blanket impl: a mutable reference to a device reports the device's own
/// error type.
impl<T: ErrorType + ?Sized> ErrorType for &mut T {
    type Error = T::Error;
}

} // verus!
