//! The vendor library's entry points, as values.
//!
//! Nothing in this crate crosses into native code. An operation of the board
//! is described by a [`NativeCall`]: which exported symbol to resolve and the
//! arguments to hand to it. Whoever owns the loaded module performs the call
//! and gives the reply back to the adapter that asked for it.

use vstd::prelude::*;
use vstd::string::*;
use vstd::utf8::{encode_utf8, is_ascii_chars, is_ascii_chars_encode_utf8};

verus! {

/// One call into the vendor library: the entry point and its arguments, in
/// the order and with the integer types of the C signature.
///
/// Every entry point returns a C `int`, except `adc_io_InputGetAll`, which
/// returns the level byte itself. A `buffer` field is the content that the
/// native code finds behind its out-pointer when the call is made.
#[derive(Debug, Clone, PartialEq, Eq)]
#[allow(inconsistent_fields)]
pub enum NativeCall {
    /// `int adc_io_open(void)`
    AdcIoOpen,
    /// `int adc_io_close(void)`
    AdcIoClose,
    /// `int ADC_GetAll(int *)`, on the caller's ten-element buffer.
    AdcGetAll,
    /// `uint8_t adc_io_InputGetAll(void)`
    AdcIoInputGetAll,
    /// `int adc_io_SetAll(unsigned)`
    AdcIoSetAll { levels: u32 },
    /// `int adc_io_Set(unsigned)`
    AdcIoSet { index: u32 },
    /// `int adc_io_ModeGetAll(uint8_t *)`
    AdcIoModeGetAll { buffer: u8 },
    /// `int adc_io_ModeSet(unsigned, int)`
    AdcIoModeSet { index: u32, mode: i32 },
    /// `int lcd_open(int)`
    LcdOpen { direction: i32 },
    /// `int lcd_close(void)`
    LcdClose,
    /// `int LCD_Refresh(void)`
    LcdRefresh,
    /// `int LCD_SetFont(int)`
    LcdSetFont { font: i32 },
    /// `int UG_SetForecolor(unsigned)`
    UgSetForecolor { color: u32 },
    /// `int UG_SetBackcolor(unsigned)`
    UgSetBackcolor { color: u32 },
    /// `int adc_led_set(int, unsigned)`
    AdcLedSet { index: i32, color: u32 },
    /// `int UG_FillScreen(unsigned)`
    UgFillScreen { color: u32 },
    /// `int UG_PutString(int, int, const char *)`
    UgPutString { x: i32, y: i32, text: String },
    /// `int UG_FillFrame(int, int, int, int, unsigned)`
    UgFillFrame { x1: i32, y1: i32, x2: i32, y2: i32, color: u32 },
    /// `int UG_FillRoundFrame(int, int, int, int, int, unsigned)`
    UgFillRoundFrame { x1: i32, y1: i32, x2: i32, y2: i32, r: i32, color: u32 },
    /// `int UG_FillCircle(int, int, int, unsigned)`
    UgFillCircle { x0: i32, y0: i32, r: i32, color: u32 },
    /// `int UG_DrawMesh(int, int, int, int, unsigned)`
    UgDrawMesh { x1: i32, y1: i32, x2: i32, y2: i32, color: u32 },
    /// `int UG_DrawFrame(int, int, int, int, unsigned)`
    UgDrawFrame { x1: i32, y1: i32, x2: i32, y2: i32, color: u32 },
    /// `int UG_DrawRoundFrame(int, int, int, int, int, unsigned)`
    UgDrawRoundFrame { x1: i32, y1: i32, x2: i32, y2: i32, r: i32, color: u32 },
    /// `int UG_DrawPixel(int, int, unsigned)`
    UgDrawPixel { x0: i32, y0: i32, color: u32 },
    /// `int UG_DrawCircle(int, int, int, unsigned)`
    UgDrawCircle { x0: i32, y0: i32, r: i32, color: u32 },
    /// `int UG_DrawArc(int, int, int, int, unsigned)`
    UgDrawArc { x0: i32, y0: i32, r: i32, s: i32, color: u32 },
    /// `int UG_DrawLine(int, int, int, int, unsigned)`
    UgDrawLine { x1: i32, y1: i32, x2: i32, y2: i32, color: u32 },
    /// `int mpu6500_dmp_init(void)`
    Mpu6500DmpInit,
    /// `int mpu6500_Get_Accel(float *)`, on the caller's three-element buffer.
    Mpu6500GetAccel,
    /// `int mpu6500_Get_Gyro(float *)`, on the caller's three-element buffer.
    Mpu6500GetGyro,
    /// `int mpu6500_Get_Attitude(float *)`, on the caller's three-element buffer.
    Mpu6500GetAttitude,
    /// `int mpu_get_gyro_fsr(uint16_t *)`
    MpuGetGyroFsr { buffer: u16 },
    /// `int mpu_get_accel_fsr(uint8_t *)`
    MpuGetAccelFsr { buffer: u8 },
    /// `int mpu_set_gyro_fsr(unsigned)`
    MpuSetGyroFsr { fsr: u32 },
    /// `int mpu_set_accel_fsr(int)`
    MpuSetAccelFsr { fsr: i32 },
}

impl NativeCall {
    /// The exported name of the entry point, exactly as the vendor module
    /// spells it.
    pub open spec fn symbol_name(self) -> Seq<char> {
        match self {
            NativeCall::AdcIoOpen => "adc_io_open"@,
            NativeCall::AdcIoClose => "adc_io_close"@,
            NativeCall::AdcGetAll => "ADC_GetAll"@,
            NativeCall::AdcIoInputGetAll => "adc_io_InputGetAll"@,
            NativeCall::AdcIoSetAll { .. } => "adc_io_SetAll"@,
            NativeCall::AdcIoSet { .. } => "adc_io_Set"@,
            NativeCall::AdcIoModeGetAll { .. } => "adc_io_ModeGetAll"@,
            NativeCall::AdcIoModeSet { .. } => "adc_io_ModeSet"@,
            NativeCall::LcdOpen { .. } => "lcd_open"@,
            NativeCall::LcdClose => "lcd_close"@,
            NativeCall::LcdRefresh => "LCD_Refresh"@,
            NativeCall::LcdSetFont { .. } => "LCD_SetFont"@,
            NativeCall::UgSetForecolor { .. } => "UG_SetForecolor"@,
            NativeCall::UgSetBackcolor { .. } => "UG_SetBackcolor"@,
            NativeCall::AdcLedSet { .. } => "adc_led_set"@,
            NativeCall::UgFillScreen { .. } => "UG_FillScreen"@,
            NativeCall::UgPutString { .. } => "UG_PutString"@,
            NativeCall::UgFillFrame { .. } => "UG_FillFrame"@,
            NativeCall::UgFillRoundFrame { .. } => "UG_FillRoundFrame"@,
            NativeCall::UgFillCircle { .. } => "UG_FillCircle"@,
            NativeCall::UgDrawMesh { .. } => "UG_DrawMesh"@,
            NativeCall::UgDrawFrame { .. } => "UG_DrawFrame"@,
            NativeCall::UgDrawRoundFrame { .. } => "UG_DrawRoundFrame"@,
            NativeCall::UgDrawPixel { .. } => "UG_DrawPixel"@,
            NativeCall::UgDrawCircle { .. } => "UG_DrawCircle"@,
            NativeCall::UgDrawArc { .. } => "UG_DrawArc"@,
            NativeCall::UgDrawLine { .. } => "UG_DrawLine"@,
            NativeCall::Mpu6500DmpInit => "mpu6500_dmp_init"@,
            NativeCall::Mpu6500GetAccel => "mpu6500_Get_Accel"@,
            NativeCall::Mpu6500GetGyro => "mpu6500_Get_Gyro"@,
            NativeCall::Mpu6500GetAttitude => "mpu6500_Get_Attitude"@,
            NativeCall::MpuGetGyroFsr { .. } => "mpu_get_gyro_fsr"@,
            NativeCall::MpuGetAccelFsr { .. } => "mpu_get_accel_fsr"@,
            NativeCall::MpuSetGyroFsr { .. } => "mpu_set_gyro_fsr"@,
            NativeCall::MpuSetAccelFsr { .. } => "mpu_set_accel_fsr"@,
        }
    }

    /// The name under which the entry point is looked up in the loaded module.
    pub fn symbol(&self) -> (name: &'static str)
        ensures
            name@ == self.symbol_name(),
            c_compatible(name@),
    {
        proof {
            lemma_symbol_names_are_c_compatible(*self);
        }
        match self {
            NativeCall::AdcIoOpen => "adc_io_open",
            NativeCall::AdcIoClose => "adc_io_close",
            NativeCall::AdcGetAll => "ADC_GetAll",
            NativeCall::AdcIoInputGetAll => "adc_io_InputGetAll",
            NativeCall::AdcIoSetAll { .. } => "adc_io_SetAll",
            NativeCall::AdcIoSet { .. } => "adc_io_Set",
            NativeCall::AdcIoModeGetAll { .. } => "adc_io_ModeGetAll",
            NativeCall::AdcIoModeSet { .. } => "adc_io_ModeSet",
            NativeCall::LcdOpen { .. } => "lcd_open",
            NativeCall::LcdClose => "lcd_close",
            NativeCall::LcdRefresh => "LCD_Refresh",
            NativeCall::LcdSetFont { .. } => "LCD_SetFont",
            NativeCall::UgSetForecolor { .. } => "UG_SetForecolor",
            NativeCall::UgSetBackcolor { .. } => "UG_SetBackcolor",
            NativeCall::AdcLedSet { .. } => "adc_led_set",
            NativeCall::UgFillScreen { .. } => "UG_FillScreen",
            NativeCall::UgPutString { .. } => "UG_PutString",
            NativeCall::UgFillFrame { .. } => "UG_FillFrame",
            NativeCall::UgFillRoundFrame { .. } => "UG_FillRoundFrame",
            NativeCall::UgFillCircle { .. } => "UG_FillCircle",
            NativeCall::UgDrawMesh { .. } => "UG_DrawMesh",
            NativeCall::UgDrawFrame { .. } => "UG_DrawFrame",
            NativeCall::UgDrawRoundFrame { .. } => "UG_DrawRoundFrame",
            NativeCall::UgDrawPixel { .. } => "UG_DrawPixel",
            NativeCall::UgDrawCircle { .. } => "UG_DrawCircle",
            NativeCall::UgDrawArc { .. } => "UG_DrawArc",
            NativeCall::UgDrawLine { .. } => "UG_DrawLine",
            NativeCall::Mpu6500DmpInit => "mpu6500_dmp_init",
            NativeCall::Mpu6500GetAccel => "mpu6500_Get_Accel",
            NativeCall::Mpu6500GetGyro => "mpu6500_Get_Gyro",
            NativeCall::Mpu6500GetAttitude => "mpu6500_Get_Attitude",
            NativeCall::MpuGetGyroFsr { .. } => "mpu_get_gyro_fsr",
            NativeCall::MpuGetAccelFsr { .. } => "mpu_get_accel_fsr",
            NativeCall::MpuSetGyroFsr { .. } => "mpu_set_gyro_fsr",
            NativeCall::MpuSetAccelFsr { .. } => "mpu_set_accel_fsr",
        }
    }
}

/// A text can cross into C as a NUL-terminated string only if none of the
/// bytes of its UTF-8 encoding is zero.
pub open spec fn c_compatible(text: Seq<char>) -> bool {
    forall|i: int| 0 <= i < encode_utf8(text).len() ==> encode_utf8(text)[i] != 0u8
}

/// Tells whether `text` is free of zero bytes, so that it can be handed to
/// native code as a C string.
pub fn is_c_compatible(text: &str) -> (ok: bool)
    ensures
        ok == c_compatible(text@),
{
    let bytes = text.as_bytes();
    let mut i: usize = 0;
    while i < bytes.len()
        invariant
            i <= bytes.len(),
            bytes@ == encode_utf8(text@),
            forall|j: int| 0 <= j < i ==> bytes@[j] != 0u8,
        decreases bytes.len() - i,
    {
        if bytes[i] == 0 {
            return false;
        }
        i = i + 1;
    }
    true
}

/// Every entry point has a name that the loader can take: plain ASCII, and
/// no zero byte that would cut the name short.
pub proof fn lemma_symbol_names_are_c_compatible(call: NativeCall)
    ensures
        is_ascii_chars(call.symbol_name()),
        c_compatible(call.symbol_name()),
{
    reveal_strlit("adc_io_open");
    reveal_strlit("adc_io_close");
    reveal_strlit("ADC_GetAll");
    reveal_strlit("adc_io_InputGetAll");
    reveal_strlit("adc_io_SetAll");
    reveal_strlit("adc_io_Set");
    reveal_strlit("adc_io_ModeGetAll");
    reveal_strlit("adc_io_ModeSet");
    reveal_strlit("lcd_open");
    reveal_strlit("lcd_close");
    reveal_strlit("LCD_Refresh");
    reveal_strlit("LCD_SetFont");
    reveal_strlit("UG_SetForecolor");
    reveal_strlit("UG_SetBackcolor");
    reveal_strlit("adc_led_set");
    reveal_strlit("UG_FillScreen");
    reveal_strlit("UG_PutString");
    reveal_strlit("UG_FillFrame");
    reveal_strlit("UG_FillRoundFrame");
    reveal_strlit("UG_FillCircle");
    reveal_strlit("UG_DrawMesh");
    reveal_strlit("UG_DrawFrame");
    reveal_strlit("UG_DrawRoundFrame");
    reveal_strlit("UG_DrawPixel");
    reveal_strlit("UG_DrawCircle");
    reveal_strlit("UG_DrawArc");
    reveal_strlit("UG_DrawLine");
    reveal_strlit("mpu6500_dmp_init");
    reveal_strlit("mpu6500_Get_Accel");
    reveal_strlit("mpu6500_Get_Gyro");
    reveal_strlit("mpu6500_Get_Attitude");
    reveal_strlit("mpu_get_gyro_fsr");
    reveal_strlit("mpu_get_accel_fsr");
    reveal_strlit("mpu_set_gyro_fsr");
    reveal_strlit("mpu_set_accel_fsr");
    assert(is_ascii_chars(call.symbol_name()));
    is_ascii_chars_encode_utf8(call.symbol_name());
}

} // verus!
