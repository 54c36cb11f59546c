//! The LCD and the two LEDs: orientations, fonts, colours and the display
//! session.
//!
//! A [`Screen`] keeps what the session knows about the display and turns each
//! drawing request into the native call that carries it out. No method waits
//! for an answer: the native code's return values play no part in a display
//! session, and every call is meant to be made as soon as the method has
//! returned it.

use vstd::prelude::*;
use vstd::string::*;
use crate::native::{c_compatible, NativeCall};

verus! {

/// Orientation in which the LCD is opened.
#[derive(Debug, Clone, Copy, PartialEq, Eq, Structural)]
pub enum ScreenDirection {
    Vertical,
    Horizontal,
}

impl ScreenDirection {
    /// Width and height of the panel in pixels, in that order.
    pub open spec fn extent(self) -> (int, int) {
        match self {
            ScreenDirection::Vertical => (64, 128),
            ScreenDirection::Horizontal => (128, 64),
        }
    }

    /// The number by which the native code knows the orientation.
    pub open spec fn native_code(self) -> int {
        match self {
            ScreenDirection::Vertical => 1,
            ScreenDirection::Horizontal => 2,
        }
    }

    /// Returns the width of the screen in pixels.
    pub fn width(&self) -> (w: i32)
        ensures
            w == self.extent().0,
    {
        match self {
            ScreenDirection::Vertical => 64,
            ScreenDirection::Horizontal => 128,
        }
    }

    /// Returns the height of the screen in pixels.
    pub fn height(&self) -> (h: i32)
        ensures
            h == self.extent().1,
    {
        match self {
            ScreenDirection::Vertical => 128,
            ScreenDirection::Horizontal => 64,
        }
    }

    /// Returns the number that `lcd_open` takes for this orientation.
    pub fn code(&self) -> (c: i32)
        ensures
            c == self.native_code(),
    {
        match self {
            ScreenDirection::Vertical => 1,
            ScreenDirection::Horizontal => 2,
        }
    }
}

/// Turning the panel swaps its width and height.
pub proof fn lemma_directions_are_transposed()
    ensures
        ScreenDirection::Vertical.extent().0 == ScreenDirection::Horizontal.extent().1,
        ScreenDirection::Vertical.extent().1 == ScreenDirection::Horizontal.extent().0,
{
}

/// The fonts of the vendor library, each named by the width and height of
/// its character cell in pixels.
#[derive(Debug, Clone, Copy, PartialEq, Eq, Structural)]
pub enum FontSize {
    Font4x6,
    Font5x8,
    Font5x12,
    Font6x8,
    Font6x10,
    Font7x12,
    Font8x8,
    Font8x12,
    Font8x14,
    Font10x16,
    Font12x16,
    Font12x20,
    Font16x26,
    Font22x36,
    Font24x40,
}

impl FontSize {
    /// Column width and row height of the character cell in pixels, in that
    /// order.
    pub open spec fn cell(self) -> (int, int) {
        match self {
            FontSize::Font4x6 => (4, 6),
            FontSize::Font5x8 => (5, 8),
            FontSize::Font5x12 => (5, 12),
            FontSize::Font6x8 => (6, 8),
            FontSize::Font6x10 => (6, 10),
            FontSize::Font7x12 => (7, 12),
            FontSize::Font8x8 => (8, 8),
            FontSize::Font8x12 => (8, 12),
            FontSize::Font8x14 => (8, 14),
            FontSize::Font10x16 => (10, 16),
            FontSize::Font12x16 => (12, 16),
            FontSize::Font12x20 => (12, 20),
            FontSize::Font16x26 => (16, 26),
            FontSize::Font22x36 => (22, 36),
            FontSize::Font24x40 => (24, 40),
        }
    }

    /// The number by which the native code knows the font: its position in
    /// the vendor's font table.
    pub open spec fn native_code(self) -> int {
        match self {
            FontSize::Font4x6 => 0,
            FontSize::Font5x8 => 1,
            FontSize::Font5x12 => 2,
            FontSize::Font6x8 => 3,
            FontSize::Font6x10 => 4,
            FontSize::Font7x12 => 5,
            FontSize::Font8x8 => 6,
            FontSize::Font8x12 => 7,
            FontSize::Font8x14 => 8,
            FontSize::Font10x16 => 9,
            FontSize::Font12x16 => 10,
            FontSize::Font12x20 => 11,
            FontSize::Font16x26 => 12,
            FontSize::Font22x36 => 13,
            FontSize::Font24x40 => 14,
        }
    }

    /// Returns the row height of the font in pixels.
    pub fn row_height(&self) -> (h: i32)
        ensures
            h == self.cell().1,
    {
        match self {
            FontSize::Font4x6 => 6,
            FontSize::Font5x8 => 8,
            FontSize::Font5x12 => 12,
            FontSize::Font6x8 => 8,
            FontSize::Font6x10 => 10,
            FontSize::Font7x12 => 12,
            FontSize::Font8x8 => 8,
            FontSize::Font8x12 => 12,
            FontSize::Font8x14 => 14,
            FontSize::Font10x16 => 16,
            FontSize::Font12x16 => 16,
            FontSize::Font12x20 => 20,
            FontSize::Font16x26 => 26,
            FontSize::Font22x36 => 36,
            FontSize::Font24x40 => 40,
        }
    }

    /// Returns the column width of the font in pixels.
    pub fn column_width(&self) -> (w: i32)
        ensures
            w == self.cell().0,
    {
        match self {
            FontSize::Font4x6 => 4,
            FontSize::Font5x8 => 5,
            FontSize::Font5x12 => 5,
            FontSize::Font6x8 => 6,
            FontSize::Font6x10 => 6,
            FontSize::Font7x12 => 7,
            FontSize::Font8x8 => 8,
            FontSize::Font8x12 => 8,
            FontSize::Font8x14 => 8,
            FontSize::Font10x16 => 10,
            FontSize::Font12x16 => 12,
            FontSize::Font12x20 => 12,
            FontSize::Font16x26 => 16,
            FontSize::Font22x36 => 22,
            FontSize::Font24x40 => 24,
        }
    }

    /// Returns the number that `LCD_SetFont` takes for this font.
    pub fn code(&self) -> (c: i32)
        ensures
            c == self.native_code(),
    {
        match self {
            FontSize::Font4x6 => 0,
            FontSize::Font5x8 => 1,
            FontSize::Font5x12 => 2,
            FontSize::Font6x8 => 3,
            FontSize::Font6x10 => 4,
            FontSize::Font7x12 => 5,
            FontSize::Font8x8 => 6,
            FontSize::Font8x12 => 7,
            FontSize::Font8x14 => 8,
            FontSize::Font10x16 => 9,
            FontSize::Font12x16 => 10,
            FontSize::Font12x20 => 11,
            FontSize::Font16x26 => 12,
            FontSize::Font22x36 => 13,
            FontSize::Font24x40 => 14,
        }
    }
}

/// The native code tells the fonts apart: no two fonts share a number, and
/// the numbers fill the vendor's table of fifteen without a gap.
pub proof fn lemma_font_codes_are_distinct(a: FontSize, b: FontSize)
    ensures
        0 <= a.native_code() < 15,
        a.native_code() == b.native_code() ==> a == b,
{
}

/// Colours of the LCD and the LEDs: 24 bits, eight each for red, green and
/// blue, red in the highest.
pub struct Color;

impl Color {
    pub const WHITE: u32 = 0xFFFFFF;

    pub const GRAY: u32 = 0x808080;

    pub const BLACK: u32 = 0x000000;

    pub const RED: u32 = 0xFF0000;

    pub const GREEN: u32 = 0x00FF00;

    pub const BLUE: u32 = 0x0000FF;

    pub const B_RED: u32 = 0xFF0080;

    pub const G_RED: u32 = 0xFF8000;

    pub const G_BLUE: u32 = 0x0080FF;

    pub const R_BLUE: u32 = 0x8000FF;

    pub const R_GREEN: u32 = 0x80FF00;

    pub const B_GREEN: u32 = 0x00FF80;

    pub const YELLOW: u32 = 0xFFFF00;

    pub const MAGENTA: u32 = 0xFF00FF;

    pub const CYAN: u32 = 0x00FFFF;

    pub const ORANGE: u32 = 0x808000;

    pub const PURPLE: u32 = 0x800080;

    pub const BLUEGREEN: u32 = 0x008080;

    pub const DARKBLUE: u32 = 0x00008B;

    pub const DARKGREEN: u32 = 0x008B00;

    pub const DARKRED: u32 = 0x8B0000;

    /// The packed colour with the given components.
    pub open spec fn pack(r: u8, g: u8, b: u8) -> u32 {
        ((r as u32) << 16) | ((g as u32) << 8) | (b as u32)
    }

    /// The red, green and blue components of a packed colour. Bits above the
    /// 24th carry no colour and are not looked at.
    pub open spec fn unpack(color: u32) -> (u8, u8, u8) {
        (((color >> 16) & 0xFF) as u8, ((color >> 8) & 0xFF) as u8, (color & 0xFF) as u8)
    }

    /// Packs red, green and blue into one colour value.
    pub fn new_color(r: u8, g: u8, b: u8) -> (color: u32)
        ensures
            color == Self::pack(r, g, b),
            color == r * 0x10000 + g * 0x100 + b,
    {
        let color: u32 = ((r as u32) << 16) | ((g as u32) << 8) | (b as u32);
        assert(color == r * 0x10000 + g * 0x100 + b) by (bit_vector)
            requires
                color == ((r as u32) << 16) | ((g as u32) << 8) | (b as u32),
        ;
        color
    }

    /// Takes a packed colour apart into red, green and blue.
    pub fn components(color: u32) -> (rgb: (u8, u8, u8))
        ensures
            rgb == Self::unpack(color),
    {
        (((color >> 16) & 0xFF) as u8, ((color >> 8) & 0xFF) as u8, (color & 0xFF) as u8)
    }
}

/// Packing loses nothing: taking a packed colour apart gives back the three
/// components it was made of, and the colour fits in 24 bits.
pub proof fn lemma_pack_round_trip(r: u8, g: u8, b: u8)
    ensures
        Color::unpack(Color::pack(r, g, b)) == (r, g, b),
        Color::pack(r, g, b) <= 0xFFFFFF,
{
    let color = Color::pack(r, g, b);
    assert(((color >> 16) & 0xFF) as u8 == r && ((color >> 8) & 0xFF) as u8 == g && (color
        & 0xFF) as u8 == b && color <= 0xFFFFFF) by (bit_vector)
        requires
            color == ((r as u32) << 16) | ((g as u32) << 8) | (b as u32),
    ;
}

/// A colour of 24 bits is the packing of its own components.
pub proof fn lemma_unpack_round_trip(color: u32)
    requires
        color <= 0xFFFFFF,
    ensures
        ({
            let (r, g, b) = Color::unpack(color);
            Color::pack(r, g, b) == color
        }),
{
    assert(((((color >> 16) & 0xFF) as u8 as u32) << 16) | ((((color >> 8) & 0xFF) as u8 as u32)
        << 8) | ((color & 0xFF) as u8 as u32) == color) by (bit_vector)
        requires
            color <= 0xFFFFFF,
    ;
}

/// The named colours are the packings of their components.
pub proof fn lemma_named_colors()
    ensures
        Color::WHITE == Color::pack(255, 255, 255),
        Color::GRAY == Color::pack(128, 128, 128),
        Color::BLACK == Color::pack(0, 0, 0),
        Color::RED == Color::pack(255, 0, 0),
        Color::GREEN == Color::pack(0, 255, 0),
        Color::BLUE == Color::pack(0, 0, 255),
        Color::B_RED == Color::pack(255, 0, 128),
        Color::G_RED == Color::pack(255, 128, 0),
        Color::G_BLUE == Color::pack(0, 128, 255),
        Color::R_BLUE == Color::pack(128, 0, 255),
        Color::R_GREEN == Color::pack(128, 255, 0),
        Color::B_GREEN == Color::pack(0, 255, 128),
        Color::YELLOW == Color::pack(255, 255, 0),
        Color::MAGENTA == Color::pack(255, 0, 255),
        Color::CYAN == Color::pack(0, 255, 255),
        Color::ORANGE == Color::pack(128, 128, 0),
        Color::PURPLE == Color::pack(128, 0, 128),
        Color::BLUEGREEN == Color::pack(0, 128, 128),
        Color::DARKBLUE == Color::pack(0, 0, 139),
        Color::DARKGREEN == Color::pack(0, 139, 0),
        Color::DARKRED == Color::pack(139, 0, 0),
{
    assert(Color::WHITE == Color::pack(255, 255, 255) && Color::GRAY == Color::pack(128, 128, 128)
        && Color::BLACK == Color::pack(0, 0, 0) && Color::RED == Color::pack(255, 0, 0)
        && Color::GREEN == Color::pack(0, 255, 0) && Color::BLUE == Color::pack(0, 0, 255)
        && Color::B_RED == Color::pack(255, 0, 128) && Color::G_RED == Color::pack(255, 128, 0)
        && Color::G_BLUE == Color::pack(0, 128, 255) && Color::R_BLUE == Color::pack(128, 0, 255)
        && Color::R_GREEN == Color::pack(128, 255, 0) && Color::B_GREEN == Color::pack(0, 255, 128)
        && Color::YELLOW == Color::pack(255, 255, 0) && Color::MAGENTA == Color::pack(255, 0, 255)
        && Color::CYAN == Color::pack(0, 255, 255) && Color::ORANGE == Color::pack(128, 128, 0)
        && Color::PURPLE == Color::pack(128, 0, 128) && Color::BLUEGREEN == Color::pack(0, 128, 128)
        && Color::DARKBLUE == Color::pack(0, 0, 139) && Color::DARKGREEN == Color::pack(0, 139, 0)
        && Color::DARKRED == Color::pack(139, 0, 0)) by (bit_vector);
}

/// What a display session knows about its screen.
pub struct ScreenState {
    /// Width and height in pixels, as far as the session has learnt them.
    pub size: (int, int),
    /// The font that text is drawn in.
    pub font: FontSize,
    /// The orientation the LCD was last opened in, if it was opened.
    pub direction: Option<ScreenDirection>,
}

/// A display session.
///
/// Its state changes only through its own methods. Each method returns the
/// native call, or the calls in order, that the request amounts to.
pub struct Screen {
    screen_size: (i32, i32),
    font_size: FontSize,
    screen_dir: Option<ScreenDirection>,
}

impl View for Screen {
    type V = ScreenState;

    closed spec fn view(&self) -> ScreenState {
        ScreenState {
            size: (self.screen_size.0 as int, self.screen_size.1 as int),
            font: self.font_size,
            direction: self.screen_dir,
        }
    }
}

impl Screen {
    /// The state every session starts in: no size learnt yet, the 12x20 font.
    pub open spec fn initial(screen_dir: Option<ScreenDirection>) -> ScreenState {
        ScreenState { size: (0, 0), font: FontSize::Font12x20, direction: screen_dir }
    }

    /// The calls that bring the display up in a given orientation: open it,
    /// blank it, show the blank frame. Without an orientation there are none.
    pub open spec fn startup(screen_dir: Option<ScreenDirection>) -> Seq<NativeCall> {
        match screen_dir {
            Some(direction) => seq![
                NativeCall::LcdOpen { direction: direction.native_code() as i32 },
                NativeCall::UgFillScreen { color: Color::BLACK },
                NativeCall::LcdRefresh,
            ],
            None => seq![],
        }
    }

    /// The two calls that set LED 0 and then LED 1.
    pub open spec fn both_leds(first: u32, second: u32) -> Seq<NativeCall> {
        seq![
            NativeCall::AdcLedSet { index: 0, color: first },
            NativeCall::AdcLedSet { index: 1, color: second },
        ]
    }

    /// Starts a session. With an orientation, the display is to be opened in
    /// it, filled with black and refreshed; with `None`, nothing is called
    /// and the display is left as it is.
    pub fn new(screen_dir: Option<ScreenDirection>) -> (session: (Screen, Vec<NativeCall>))
        ensures
            session.0@ == Self::initial(screen_dir),
            session.1@ == Self::startup(screen_dir),
    {
        let mut screen = Screen {
            screen_size: (0, 0),
            font_size: FontSize::Font12x20,
            screen_dir,
        };
        let mut calls: Vec<NativeCall> = Vec::new();
        if let Some(dir) = screen_dir {
            calls.push(screen.open(dir));
            calls.push(screen.fill_screen(Color::BLACK));
            calls.push(screen.refresh());
        }
        assert(calls@ =~= Self::startup(screen_dir));
        (screen, calls)
    }

    /// Width and height in pixels, as far as the session has learnt them.
    pub fn screen_size(&self) -> (size: (i32, i32))
        ensures
            size.0 == self@.size.0,
            size.1 == self@.size.1,
    {
        self.screen_size
    }

    /// The font that text is drawn in.
    pub fn font_size(&self) -> (font: FontSize)
        ensures
            font == self@.font,
    {
        self.font_size
    }

    /// The orientation the LCD was last opened in, if it was opened.
    pub fn screen_dir(&self) -> (direction: Option<ScreenDirection>)
        ensures
            direction == self@.direction,
    {
        self.screen_dir
    }

    /// Opens the LCD in the given orientation, which the session remembers.
    pub fn open(&mut self, direction: ScreenDirection) -> (call: NativeCall)
        ensures
            final(self)@ == (ScreenState { direction: Some(direction), ..old(self)@ }),
            call == (NativeCall::LcdOpen { direction: direction.native_code() as i32 }),
    {
        self.screen_dir = Some(direction);
        NativeCall::LcdOpen { direction: direction.code() }
    }

    /// Closes the LCD. The session keeps what it knew.
    pub fn close(&mut self) -> (call: NativeCall)
        ensures
            *final(self) == *old(self),
            call == NativeCall::LcdClose,
    {
        NativeCall::LcdClose
    }

    /// Puts what has been drawn since the last refresh onto the panel.
    pub fn refresh(&mut self) -> (call: NativeCall)
        ensures
            *final(self) == *old(self),
            call == NativeCall::LcdRefresh,
    {
        NativeCall::LcdRefresh
    }

    /// Chooses the font for the text drawn from now on.
    pub fn set_font_size(&mut self, font_size: FontSize) -> (call: NativeCall)
        ensures
            final(self)@ == (ScreenState { font: font_size, ..old(self)@ }),
            call == (NativeCall::LcdSetFont { font: font_size.native_code() as i32 }),
    {
        self.font_size = font_size;
        NativeCall::LcdSetFont { font: font_size.code() }
    }

    /// Sets the foreground colour.
    pub fn set_fore_color(&mut self, color: u32) -> (call: NativeCall)
        ensures
            *final(self) == *old(self),
            call == (NativeCall::UgSetForecolor { color }),
    {
        NativeCall::UgSetForecolor { color }
    }

    /// Sets the background colour.
    pub fn set_back_color(&mut self, color: u32) -> (call: NativeCall)
        ensures
            *final(self) == *old(self),
            call == (NativeCall::UgSetBackcolor { color }),
    {
        NativeCall::UgSetBackcolor { color }
    }

    /// Sets the colour of the LED at `index`. The board has LEDs 0 and 1;
    /// what another index does is up to the native code.
    pub fn set_led_color(&mut self, index: i32, color: u32) -> (call: NativeCall)
        ensures
            *final(self) == *old(self),
            call == (NativeCall::AdcLedSet { index, color }),
    {
        NativeCall::AdcLedSet { index, color }
    }

    /// Sets the colour of LED 0.
    pub fn set_led_0(&mut self, color: u32) -> (call: NativeCall)
        ensures
            *final(self) == *old(self),
            call == (NativeCall::AdcLedSet { index: 0, color }),
    {
        self.set_led_color(0, color)
    }

    /// Sets the colour of LED 1.
    pub fn set_led_1(&mut self, color: u32) -> (call: NativeCall)
        ensures
            *final(self) == *old(self),
            call == (NativeCall::AdcLedSet { index: 1, color }),
    {
        self.set_led_color(1, color)
    }

    /// Sets both LEDs to the same colour, LED 0 first.
    pub fn set_all_leds_same(&mut self, color: u32) -> (calls: Vec<NativeCall>)
        ensures
            *final(self) == *old(self),
            calls@ == Self::both_leds(color, color),
    {
        let mut calls: Vec<NativeCall> = Vec::new();
        calls.push(self.set_led_color(0, color));
        calls.push(self.set_led_color(1, color));
        assert(calls@ =~= Self::both_leds(color, color));
        calls
    }

    /// Sets LED 0 to `first` and then LED 1 to `second`.
    pub fn set_all_leds_single(&mut self, first: u32, second: u32) -> (calls: Vec<NativeCall>)
        ensures
            *final(self) == *old(self),
            calls@ == Self::both_leds(first, second),
    {
        let mut calls: Vec<NativeCall> = Vec::new();
        calls.push(self.set_led_color(0, first));
        calls.push(self.set_led_color(1, second));
        assert(calls@ =~= Self::both_leds(first, second));
        calls
    }

    /// Turns both LEDs off: colour 0 on LED 0, then on LED 1.
    pub fn set_all_leds_off(&mut self) -> (calls: Vec<NativeCall>)
        ensures
            *final(self) == *old(self),
            calls@ == Self::both_leds(0, 0),
    {
        let mut calls: Vec<NativeCall> = Vec::new();
        calls.push(self.set_led_color(0, 0));
        calls.push(self.set_led_color(1, 0));
        assert(calls@ =~= Self::both_leds(0, 0));
        calls
    }

    /// Fills the whole screen with one colour.
    pub fn fill_screen(&mut self, color: u32) -> (call: NativeCall)
        ensures
            *final(self) == *old(self),
            call == (NativeCall::UgFillScreen { color }),
    {
        NativeCall::UgFillScreen { color }
    }

    /// Draws a string with its top left corner at (`x`, `y`).
    ///
    /// The text crosses into C as a NUL-terminated string, so it must not
    /// hold a zero byte itself; [`crate::native::is_c_compatible`] tells.
    pub fn put_string(&mut self, x: i32, y: i32, display_string: &str) -> (call: NativeCall)
        requires
            c_compatible(display_string@),
        ensures
            *final(self) == *old(self),
            call matches NativeCall::UgPutString { x: at_x, y: at_y, text }
                && at_x == x && at_y == y && text@ == display_string@,
    {
        NativeCall::UgPutString { x, y, text: display_string.to_owned() }
    }

    /// Draws a string from the top left corner of the screen.
    pub fn print(&mut self, display_string: &str) -> (call: NativeCall)
        requires
            c_compatible(display_string@),
        ensures
            *final(self) == *old(self),
            call matches NativeCall::UgPutString { x: at_x, y: at_y, text }
                && at_x == 0 && at_y == 0 && text@ == display_string@,
    {
        self.put_string(0, 0, display_string)
    }

    /// Fills the rectangle between (`x1`, `y1`) and (`x2`, `y2`).
    pub fn fill_frame(&mut self, x1: i32, y1: i32, x2: i32, y2: i32, color: u32) -> (call:
        NativeCall)
        ensures
            *final(self) == *old(self),
            call == (NativeCall::UgFillFrame { x1, y1, x2, y2, color }),
    {
        NativeCall::UgFillFrame { x1, y1, x2, y2, color }
    }

    /// Fills the rectangle between (`x1`, `y1`) and (`x2`, `y2`), its corners
    /// rounded with radius `r`.
    pub fn fill_round_frame(
        &mut self,
        x1: i32,
        y1: i32,
        x2: i32,
        y2: i32,
        r: i32,
        color: u32,
    ) -> (call: NativeCall)
        ensures
            *final(self) == *old(self),
            call == (NativeCall::UgFillRoundFrame { x1, y1, x2, y2, r, color }),
    {
        NativeCall::UgFillRoundFrame { x1, y1, x2, y2, r, color }
    }

    /// Fills the circle of radius `r` around (`x0`, `y0`).
    pub fn fill_circle(&mut self, x0: i32, y0: i32, r: i32, color: u32) -> (call: NativeCall)
        ensures
            *final(self) == *old(self),
            call == (NativeCall::UgFillCircle { x0, y0, r, color }),
    {
        NativeCall::UgFillCircle { x0, y0, r, color }
    }

    /// Draws a mesh over the rectangle between (`x1`, `y1`) and (`x2`, `y2`).
    pub fn draw_mesh(&mut self, x1: i32, y1: i32, x2: i32, y2: i32, color: u32) -> (call:
        NativeCall)
        ensures
            *final(self) == *old(self),
            call == (NativeCall::UgDrawMesh { x1, y1, x2, y2, color }),
    {
        NativeCall::UgDrawMesh { x1, y1, x2, y2, color }
    }

    /// Draws the outline of the rectangle between (`x1`, `y1`) and
    /// (`x2`, `y2`).
    pub fn draw_frame(&mut self, x1: i32, y1: i32, x2: i32, y2: i32, color: u32) -> (call:
        NativeCall)
        ensures
            *final(self) == *old(self),
            call == (NativeCall::UgDrawFrame { x1, y1, x2, y2, color }),
    {
        NativeCall::UgDrawFrame { x1, y1, x2, y2, color }
    }

    /// Draws the outline of the rectangle between (`x1`, `y1`) and
    /// (`x2`, `y2`), its corners rounded with radius `r`.
    pub fn draw_round_frame(
        &mut self,
        x1: i32,
        y1: i32,
        x2: i32,
        y2: i32,
        r: i32,
        color: u32,
    ) -> (call: NativeCall)
        ensures
            *final(self) == *old(self),
            call == (NativeCall::UgDrawRoundFrame { x1, y1, x2, y2, r, color }),
    {
        NativeCall::UgDrawRoundFrame { x1, y1, x2, y2, r, color }
    }

    /// Draws the pixel at (`x0`, `y0`).
    pub fn draw_pixel(&mut self, x0: i32, y0: i32, color: u32) -> (call: NativeCall)
        ensures
            *final(self) == *old(self),
            call == (NativeCall::UgDrawPixel { x0, y0, color }),
    {
        NativeCall::UgDrawPixel { x0, y0, color }
    }

    /// Draws the circle of radius `r` around (`x0`, `y0`).
    pub fn draw_circle(&mut self, x0: i32, y0: i32, r: i32, color: u32) -> (call: NativeCall)
        ensures
            *final(self) == *old(self),
            call == (NativeCall::UgDrawCircle { x0, y0, r, color }),
    {
        NativeCall::UgDrawCircle { x0, y0, r, color }
    }

    /// Draws an arc of the circle of radius `r` around (`x0`, `y0`), `s`
    /// saying which part of the circle.
    pub fn draw_arc(&mut self, x0: i32, y0: i32, r: i32, s: i32, color: u32) -> (call: NativeCall)
        ensures
            *final(self) == *old(self),
            call == (NativeCall::UgDrawArc { x0, y0, r, s, color }),
    {
        NativeCall::UgDrawArc { x0, y0, r, s, color }
    }

    /// Draws the line from (`x1`, `y1`) to (`x2`, `y2`).
    pub fn draw_line(&mut self, x1: i32, y1: i32, x2: i32, y2: i32, color: u32) -> (call:
        NativeCall)
        ensures
            *final(self) == *old(self),
            call == (NativeCall::UgDrawLine { x1, y1, x2, y2, color }),
    {
        NativeCall::UgDrawLine { x1, y1, x2, y2, color }
    }
}

} // verus!
