//! The six-axis motion sensor.
//!
//! Starting the sensor is the one operation here whose reply is interpreted.
//! The readings and the full-scale ranges pass through: the function says
//! which native call to make, and what the native code answers goes to the
//! caller as it is. A full-scale range is whatever number the caller gives
//! or the sensor reports; none is checked against the ranges the sensor has.

use vstd::prelude::*;
use crate::native::NativeCall;
use crate::report::{Failure, Outcome};

verus! {

/// Starts the sensor and its motion processor: one call of
/// `mpu6500_dmp_init`.
pub fn mpu6500_open() -> (call: NativeCall)
    ensures
        call == NativeCall::Mpu6500DmpInit,
{
    NativeCall::Mpu6500DmpInit
}

/// The caller gets what `mpu6500_dmp_init` returned; anything but 0 is
/// reported as a failure.
pub fn mpu6500_open_outcome(code: i32) -> (out: Outcome<i32>)
    ensures
        out.value == code,
        out.failure == (if code != 0 {
            Some(Failure::Mpu6500Open)
        } else {
            None
        }),
{
    if code != 0 {
        Outcome { value: code, failure: Some(Failure::Mpu6500Open) }
    } else {
        Outcome { value: code, failure: None }
    }
}

/// Reads the acceleration along X, Y and Z: one call of `mpu6500_Get_Accel`,
/// which writes into the caller's buffer and whose code goes to the caller.
pub fn mpu6500_get_accel() -> (call: NativeCall)
    ensures
        call == NativeCall::Mpu6500GetAccel,
{
    NativeCall::Mpu6500GetAccel
}

/// Reads the angular velocity around X, Y and Z: one call of
/// `mpu6500_Get_Gyro`, which writes into the caller's buffer and whose code
/// goes to the caller.
pub fn mpu6500_get_gyro() -> (call: NativeCall)
    ensures
        call == NativeCall::Mpu6500GetGyro,
{
    NativeCall::Mpu6500GetGyro
}

/// Reads pitch, roll and yaw: one call of `mpu6500_Get_Attitude`, which
/// writes into the caller's buffer and whose code goes to the caller.
pub fn mpu6500_get_attitude() -> (call: NativeCall)
    ensures
        call == NativeCall::Mpu6500GetAttitude,
{
    NativeCall::Mpu6500GetAttitude
}

/// Reads the gyroscope's full-scale range: one call of `mpu_get_gyro_fsr`,
/// on a value that starts out as 0. The caller gets the value as the native
/// code left it; the code is not looked at.
pub fn mpu_get_gyro_fsr() -> (call: NativeCall)
    ensures
        call == (NativeCall::MpuGetGyroFsr { buffer: 0 }),
{
    NativeCall::MpuGetGyroFsr { buffer: 0 }
}

/// Reads the accelerometer's full-scale range: one call of
/// `mpu_get_accel_fsr`, on a value that starts out as 0. The caller gets the
/// value as the native code left it; the code is not looked at.
pub fn mpu_get_accel_fsr() -> (call: NativeCall)
    ensures
        call == (NativeCall::MpuGetAccelFsr { buffer: 0 }),
{
    NativeCall::MpuGetAccelFsr { buffer: 0 }
}

/// Sets the gyroscope's full-scale range: one call of `mpu_set_gyro_fsr`,
/// whose code goes to the caller.
pub fn mpu_set_gyro_fsr(fsr: u32) -> (call: NativeCall)
    ensures
        call == (NativeCall::MpuSetGyroFsr { fsr }),
{
    NativeCall::MpuSetGyroFsr { fsr }
}

/// Sets the accelerometer's full-scale range: one call of
/// `mpu_set_accel_fsr`, whose code goes to the caller.
pub fn mpu_set_accel_fsr(fsr: i32) -> (call: NativeCall)
    ensures
        call == (NativeCall::MpuSetAccelFsr { fsr }),
{
    NativeCall::MpuSetAccelFsr { fsr }
}

} // verus!
