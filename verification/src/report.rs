//! What an adapter hands back once the native code has answered.

use vstd::prelude::*;

verus! {

/// A native call that went wrong, named by the operation that made it and
/// the arguments the operation was given.
///
/// A failure is reported once, to whoever keeps the log, and never retried.
#[derive(Debug, Clone, Copy, PartialEq, Eq, Structural)]
pub enum Failure {
    /// Opening the analog/digital channel.
    AdcOpen,
    /// Closing the analog/digital channel.
    AdcClose,
    /// Reading the ten analog channels.
    AdcGetAllChannels,
    /// Writing the level mask of the digital channels.
    SetAllIoLevels,
    /// Flipping the level of one digital channel.
    FlipIoLevel { index: u32 },
    /// Reading the direction mask of the digital channels.
    GetAllIoMode,
    /// Setting the direction of every digital channel.
    SetAllIoMode { mode: u8 },
    /// Setting the direction of one digital channel.
    SetIoMode { index: u32, mode: u8 },
    /// Starting the motion sensor.
    Mpu6500Open,
}

/// The result of an operation: the value that goes to the caller, and the
/// failure to report, if the native code signalled one.
#[derive(Debug, PartialEq, Eq)]
pub struct Outcome<T> {
    pub value: T,
    pub failure: Option<Failure>,
}

} // verus!
