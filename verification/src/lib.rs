//! Verified core of a binding to the Uptech board's vendor library.
//!
//! The board has three subsystems: analog inputs and digital channels
//! ([`adc_io`]), an LCD with two LEDs ([`display`]) and a six-axis motion
//! sensor ([`mpu`]). All of them are driven through a vendor module that is
//! loaded at run time ([`bootstrap`]).
//!
//! This crate holds every decision of the binding and none of its effects.
//! An operation says which entry point of the vendor module is to be called
//! and with what arguments ([`native::NativeCall`]); once the native code has
//! answered, the operation says what the caller gets and whether a failure is
//! to be reported ([`report::Outcome`]). Loading the module, resolving
//! symbols, making the calls and writing the log are left to the caller.

pub mod adc_io;
pub mod bootstrap;
pub mod display;
pub mod mpu;
pub mod native;
pub mod report;
