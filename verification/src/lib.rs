//! Platform-agnostic building blocks for real-time-clock (RTC) drivers.
//!
//! The crate centres on a validated calendar value ([`datetime::DateTime`])
//! together with weekday derivation, a packed-decimal codec ([`bcd`]) for the
//! register encoding most RTC chips use, and the trait vocabulary
//! ([`rtc`], [`control`], [`nvram`], [`square_wave`], [`error`]) that
//! bus-specific drivers implement.

pub mod bcd;
pub mod control;
pub mod datetime;
pub mod error;
pub mod nvram;
pub mod rtc;
pub mod square_wave;
