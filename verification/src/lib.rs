//! Substitute implementations of a digital I/O pin.
//!
//! These types stand in wherever code written against a generic pin
//! interface must run without real hardware: unit tests, drivers for pins
//! that are physically absent, or pins whose behaviour is irrelevant to the
//! caller.
//!
//! [`DummyPin`] is a zero-size, no-op pin that ignores writes and always
//! reads back the level chosen at construction. [`LastStateDummyPin`]
//! stores the last level set at runtime and returns it when read.
//!
//! No operation on either pin can fail: every error channel is the
//! uninhabited type `core::convert::Infallible`.

mod dummy;
mod last;

pub mod level;

pub use crate::dummy::DummyPin;
pub use crate::last::LastStateDummyPin;
