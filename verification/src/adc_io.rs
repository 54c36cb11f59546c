//! Analog inputs and the eight digital channels.
//!
//! Each operation comes in two halves. The function that carries the
//! operation's name says which native call it makes; where the reply needs
//! interpreting, the function ending in `_outcome` takes what the native code
//! answered and says what the caller gets and whether a failure is reported.
//! Between the two, the owner of the loaded module performs the call.
//!
//! The digital channels are addressed by a bitmask: bit *i* is channel *i*,
//! 1 for high (or output), 0 for low (or input).

use vstd::prelude::*;
use crate::native::NativeCall;
use crate::report::{Failure, Outcome};

verus! {

/// Opens the analog/digital channel: one call of `adc_io_open`.
pub fn adc_open() -> (call: NativeCall)
    ensures
        call == NativeCall::AdcIoOpen,
{
    NativeCall::AdcIoOpen
}

/// The caller gets what `adc_io_open` returned: the number of times the
/// channel has been opened, or -1, which is reported as a failure.
pub fn adc_open_outcome(open_times: i32) -> (out: Outcome<i32>)
    ensures
        out.value == open_times,
        out.failure == (if open_times == -1 {
            Some(Failure::AdcOpen)
        } else {
            None
        }),
{
    if open_times == -1 {
        Outcome { value: open_times, failure: Some(Failure::AdcOpen) }
    } else {
        Outcome { value: open_times, failure: None }
    }
}

/// Closes the analog/digital channel: one call of `adc_io_close`.
pub fn adc_close() -> (call: NativeCall)
    ensures
        call == NativeCall::AdcIoClose,
{
    NativeCall::AdcIoClose
}

/// The caller gets what `adc_io_close` returned: 0, or -1, which is reported
/// as a failure.
pub fn adc_close_outcome(code: i32) -> (out: Outcome<i32>)
    ensures
        out.value == code,
        out.failure == (if code == -1 {
            Some(Failure::AdcClose)
        } else {
            None
        }),
{
    if code == -1 {
        Outcome { value: code, failure: Some(Failure::AdcClose) }
    } else {
        Outcome { value: code, failure: None }
    }
}

/// Reads the ten analog channels: one call of `ADC_GetAll`, which writes
/// into the caller's buffer.
pub fn adc_get_all_channels() -> (call: NativeCall)
    ensures
        call == NativeCall::AdcGetAll,
{
    NativeCall::AdcGetAll
}

/// What the caller is told when `ADC_GetAll` answers anything but 0.
pub open spec fn adc_read_error() -> Seq<char> {
    "Failed to get all ADC channels"@
}

/// `Ok` exactly when `ADC_GetAll` returned 0. Any other code is an error for
/// the caller and a failure to report. The buffer is the native code's
/// business alone: it is neither read nor written here.
pub fn adc_get_all_channels_outcome(code: i32) -> (out: Outcome<Result<(), &'static str>>)
    ensures
        code == 0 ==> out.value is Ok && out.failure is None,
        code != 0 ==> (out.value matches Err(message) && message@ == adc_read_error())
            && out.failure == Some(Failure::AdcGetAllChannels),
{
    if code != 0 {
        Outcome {
            value: Err("Failed to get all ADC channels"),
            failure: Some(Failure::AdcGetAllChannels),
        }
    } else {
        Outcome { value: Ok(()), failure: None }
    }
}

/// Reads the level mask of the digital channels: one call of
/// `adc_io_InputGetAll`, whose result goes to the caller as it is.
pub fn io_get_all_channels() -> (call: NativeCall)
    ensures
        call == NativeCall::AdcIoInputGetAll,
{
    NativeCall::AdcIoInputGetAll
}

/// The level of channel `index` in a level mask: there is no native read of a
/// single channel, so the level is taken out of the mask that
/// [`io_get_all_channels`] obtained.
pub fn get_io_level(levels: u8, index: usize) -> (level: u8)
    requires
        index < 8,
    ensures
        level == (levels >> index) & 1,
        level == 0 || level == 1,
{
    let level: u8 = (levels >> index) & 1;
    assert(level == 0 || level == 1) by (bit_vector)
        requires
            level == (levels >> index) & 1,
    ;
    level
}

/// Writes the level mask of the digital channels: one call of
/// `adc_io_SetAll`.
pub fn set_all_io_levels(levels: u32) -> (call: NativeCall)
    ensures
        call == (NativeCall::AdcIoSetAll { levels }),
{
    NativeCall::AdcIoSetAll { levels }
}

/// The caller gets what `adc_io_SetAll` returned; anything but 0 is reported
/// as a failure.
pub fn set_all_io_levels_outcome(code: i32) -> (out: Outcome<i32>)
    ensures
        out.value == code,
        out.failure == (if code != 0 {
            Some(Failure::SetAllIoLevels)
        } else {
            None
        }),
{
    if code != 0 {
        Outcome { value: code, failure: Some(Failure::SetAllIoLevels) }
    } else {
        Outcome { value: code, failure: None }
    }
}

/// Flips the level of channel `index`: one call of `adc_io_Set`.
pub fn flip_io_level(index: u32) -> (call: NativeCall)
    ensures
        call == (NativeCall::AdcIoSet { index }),
{
    NativeCall::AdcIoSet { index }
}

/// The caller gets what `adc_io_Set` returned; -1 is reported as a failure
/// of the flip at `index`.
pub fn flip_io_level_outcome(index: u32, code: i32) -> (out: Outcome<i32>)
    ensures
        out.value == code,
        out.failure == (if code == -1 {
            Some(Failure::FlipIoLevel { index })
        } else {
            None
        }),
{
    if code == -1 {
        Outcome { value: code, failure: Some(Failure::FlipIoLevel { index }) }
    } else {
        Outcome { value: code, failure: None }
    }
}

/// Reads the direction mask of the digital channels: one call of
/// `adc_io_ModeGetAll`, on a byte that starts out as 0.
pub fn get_all_io_mode() -> (call: NativeCall)
    ensures
        call == (NativeCall::AdcIoModeGetAll { buffer: 0 }),
{
    NativeCall::AdcIoModeGetAll { buffer: 0 }
}

/// The caller gets the byte as `adc_io_ModeGetAll` left it, whatever the
/// code; a code other than 0 is reported as a failure.
pub fn get_all_io_mode_outcome(code: i32, buffer: u8) -> (out: Outcome<u8>)
    ensures
        out.value == buffer,
        out.failure == (if code != 0 {
            Some(Failure::GetAllIoMode)
        } else {
            None
        }),
{
    if code != 0 {
        Outcome { value: buffer, failure: Some(Failure::GetAllIoMode) }
    } else {
        Outcome { value: buffer, failure: None }
    }
}

/// The calls that set every channel to `mode`: `adc_io_ModeSet` once per
/// channel, in ascending order of the channels.
pub open spec fn mode_sweep(mode: u8) -> Seq<NativeCall> {
    Seq::new(8, |i: int| NativeCall::AdcIoModeSet { index: i as u32, mode: mode as i32 })
}

/// Whether every one of the codes is 0.
pub open spec fn all_zero(codes: Seq<i32>) -> bool {
    forall|i: int| 0 <= i < codes.len() ==> codes[i] == 0
}

/// What setting every channel to `mode` comes to, given the codes that the
/// calls of [`mode_sweep`] returned: 0 if all of them did, else -1 and a
/// failure that names the mode but not the channels.
pub open spec fn sweep_outcome(mode: u8, codes: Seq<i32>) -> Outcome<i32> {
    if all_zero(codes) {
        Outcome { value: 0i32, failure: None }
    } else {
        Outcome { value: -1i32, failure: Some(Failure::SetAllIoMode { mode }) }
    }
}

/// Sets the direction of all eight channels. The native code has no bulk
/// call for this, so the channels are set one by one; all eight calls are to
/// be made, whichever of them fail.
pub fn set_all_io_mode(mode: u8) -> (calls: Vec<NativeCall>)
    ensures
        calls@ == mode_sweep(mode),
{
    let mut calls: Vec<NativeCall> = Vec::new();
    let mut index: u32 = 0;
    while index < 8
        invariant
            index <= 8,
            calls@.len() == index,
            forall|i: int|
                0 <= i < index ==> calls@[i] == (NativeCall::AdcIoModeSet {
                    index: i as u32,
                    mode: mode as i32,
                }),
        decreases 8 - index,
    {
        calls.push(NativeCall::AdcIoModeSet { index, mode: mode as i32 });
        index = index + 1;
    }
    assert(calls@ =~= mode_sweep(mode));
    calls
}

/// Aggregates the eight codes that the calls of [`set_all_io_mode`]
/// returned, `codes[i]` being the answer for channel `i`.
pub fn set_all_io_mode_outcome(mode: u8, codes: &[i32; 8]) -> (out: Outcome<i32>)
    ensures
        out == sweep_outcome(mode, codes@),
{
    let mut failed = false;
    let mut i: usize = 0;
    while i < 8
        invariant
            i <= 8,
            !failed <==> forall|j: int| 0 <= j < i ==> codes@[j] == 0,
        decreases 8 - i,
    {
        if codes[i] != 0 {
            failed = true;
        }
        i = i + 1;
    }
    if failed {
        Outcome { value: -1, failure: Some(Failure::SetAllIoMode { mode }) }
    } else {
        Outcome { value: 0, failure: None }
    }
}

/// Setting every channel is best effort. Let `primitive` stand for the
/// native code: any rule that gives its answer to each call. The calls are
/// fixed before the first of them is made, one per channel and channel `i`
/// at position `i`, so a channel that fails takes no other channel out. The
/// whole comes to 0 exactly if the primitive answers 0 on every channel, and
/// to -1 with a reported failure exactly if it answers otherwise on any.
pub proof fn lemma_sweep_is_best_effort(mode: u8, primitive: spec_fn(NativeCall) -> i32)
    ensures
        ({
            let calls = mode_sweep(mode);
            let codes = Seq::new(8, |i: int| primitive(calls[i]));
            let outcome = sweep_outcome(mode, codes);
            &&& calls.len() == 8
            &&& forall|i: int|
                0 <= i < 8 ==> #[trigger] calls[i] == (NativeCall::AdcIoModeSet {
                    index: i as u32,
                    mode: mode as i32,
                })
            &&& outcome == (Outcome { value: 0i32, failure: None }) <==> (forall|i: int|
                0 <= i < 8 ==> primitive(#[trigger] calls[i]) == 0)
            &&& outcome == (Outcome {
                value: -1i32,
                failure: Some(Failure::SetAllIoMode { mode }),
            }) <==> (exists|i: int| 0 <= i < 8 && primitive(#[trigger] calls[i]) != 0)
        }),
{
    let calls = mode_sweep(mode);
    let codes = Seq::new(8, |i: int| primitive(calls[i]));
    if all_zero(codes) {
        assert forall|i: int| 0 <= i < 8 implies primitive(#[trigger] calls[i]) == 0 by {
            assert(codes[i] == 0);
        }
    } else {
        let i = choose|i: int| 0 <= i < codes.len() && codes[i] != 0;
        assert(primitive(calls[i]) != 0);
    }
}

/// Sets the direction of channel `index`: one call of `adc_io_ModeSet`,
/// with the mode widened to the C `int` that the entry point takes.
pub fn set_io_mode(index: u32, mode: u8) -> (call: NativeCall)
    ensures
        call == (NativeCall::AdcIoModeSet { index, mode: mode as i32 }),
{
    NativeCall::AdcIoModeSet { index, mode: mode as i32 }
}

/// The caller gets what `adc_io_ModeSet` returned; anything but 0 is
/// reported as a failure of that setting.
pub fn set_io_mode_outcome(index: u32, mode: u8, code: i32) -> (out: Outcome<i32>)
    ensures
        out.value == code,
        out.failure == (if code != 0 {
            Some(Failure::SetIoMode { index, mode })
        } else {
            None
        }),
{
    if code != 0 {
        Outcome { value: code, failure: Some(Failure::SetIoMode { index, mode }) }
    } else {
        Outcome { value: code, failure: None }
    }
}

} // verus!
