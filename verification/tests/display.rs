use uptechstar_rs::display::{Color, FontSize, Screen, ScreenDirection};
use uptechstar_rs::native::NativeCall;

const FONTS: [FontSize; 15] = [
    FontSize::Font4x6,
    FontSize::Font5x8,
    FontSize::Font5x12,
    FontSize::Font6x8,
    FontSize::Font6x10,
    FontSize::Font7x12,
    FontSize::Font8x8,
    FontSize::Font8x12,
    FontSize::Font8x14,
    FontSize::Font10x16,
    FontSize::Font12x16,
    FontSize::Font12x20,
    FontSize::Font16x26,
    FontSize::Font22x36,
    FontSize::Font24x40,
];

fn closed_screen() -> Screen {
    let (screen, calls) = Screen::new(None);
    assert!(calls.is_empty());
    screen
}

#[test]
fn vertical_panel_is_64_by_128() {
    assert_eq!(ScreenDirection::Vertical.width(), 64);
    assert_eq!(ScreenDirection::Vertical.height(), 128);
}

#[test]
fn horizontal_panel_is_128_by_64() {
    assert_eq!(ScreenDirection::Horizontal.width(), 128);
    assert_eq!(ScreenDirection::Horizontal.height(), 64);
}

#[test]
fn direction_codes_are_those_of_the_native_code() {
    assert_eq!(ScreenDirection::Vertical.code(), 1);
    assert_eq!(ScreenDirection::Horizontal.code(), 2);
}

#[test]
fn font_cells_match_the_table() {
    let table: [(i32, i32); 15] = [
        (4, 6),
        (5, 8),
        (5, 12),
        (6, 8),
        (6, 10),
        (7, 12),
        (8, 8),
        (8, 12),
        (8, 14),
        (10, 16),
        (12, 16),
        (12, 20),
        (16, 26),
        (22, 36),
        (24, 40),
    ];
    for (font, (width, height)) in FONTS.iter().zip(table.iter()) {
        assert_eq!(font.column_width(), *width, "{:?}", font);
        assert_eq!(font.row_height(), *height, "{:?}", font);
    }
}

#[test]
fn font_12x20_is_20_high() {
    assert_eq!(FontSize::Font12x20.row_height(), 20);
    assert_eq!(FontSize::Font12x20.column_width(), 12);
}

#[test]
fn font_8x8_is_square() {
    assert_eq!(FontSize::Font8x8.row_height(), 8);
    assert_eq!(FontSize::Font8x8.column_width(), 8);
}

#[test]
fn font_names_spell_their_cells() {
    for font in FONTS.iter() {
        let name = format!("{:?}", font);
        let expected = format!("Font{}x{}", font.column_width(), font.row_height());
        assert_eq!(name, expected);
    }
}

#[test]
fn font_codes_count_up_from_zero() {
    for (position, font) in FONTS.iter().enumerate() {
        assert_eq!(font.code(), position as i32);
    }
}

#[test]
fn colors_pack_red_high_and_blue_low() {
    assert_eq!(Color::new_color(0x12, 0x34, 0x56), 0x123456);
    assert_eq!(Color::new_color(255, 255, 255), 0xFFFFFF);
    assert_eq!(Color::new_color(0, 0, 0), 0);
    assert_eq!(Color::new_color(1, 0, 0), 0x010000);
    assert_eq!(Color::new_color(0, 1, 0), 0x000100);
    assert_eq!(Color::new_color(0, 0, 1), 0x000001);
}

#[test]
fn colors_pack_by_shifting() {
    for r in (0..=255u32).step_by(5) {
        for g in (0..=255u32).step_by(3) {
            for b in (0..=255u32).step_by(17) {
                let packed = Color::new_color(r as u8, g as u8, b as u8);
                assert_eq!(packed, (r << 16) | (g << 8) | b);
                assert_eq!(packed, (r << 16) + (g << 8) + b);
            }
        }
    }
}

#[test]
fn colors_come_apart_into_what_they_were_made_of() {
    for r in (0..=255u8).step_by(5) {
        for g in (0..=255u8).step_by(3) {
            for b in (0..=255u8).step_by(17) {
                assert_eq!(Color::components(Color::new_color(r, g, b)), (r, g, b));
            }
        }
    }
    assert_eq!(Color::components(0x123456), (0x12, 0x34, 0x56));
    assert_eq!(Color::components(0xFF123456), (0x12, 0x34, 0x56));
}

#[test]
fn named_colors_are_made_of_their_components() {
    assert_eq!(Color::WHITE, Color::new_color(255, 255, 255));
    assert_eq!(Color::GRAY, Color::new_color(128, 128, 128));
    assert_eq!(Color::BLACK, Color::new_color(0, 0, 0));
    assert_eq!(Color::RED, Color::new_color(255, 0, 0));
    assert_eq!(Color::GREEN, Color::new_color(0, 255, 0));
    assert_eq!(Color::BLUE, Color::new_color(0, 0, 255));
    assert_eq!(Color::B_RED, Color::new_color(255, 0, 128));
    assert_eq!(Color::G_RED, Color::new_color(255, 128, 0));
    assert_eq!(Color::G_BLUE, Color::new_color(0, 128, 255));
    assert_eq!(Color::R_BLUE, Color::new_color(128, 0, 255));
    assert_eq!(Color::R_GREEN, Color::new_color(128, 255, 0));
    assert_eq!(Color::B_GREEN, Color::new_color(0, 255, 128));
    assert_eq!(Color::YELLOW, Color::new_color(255, 255, 0));
    assert_eq!(Color::MAGENTA, Color::new_color(255, 0, 255));
    assert_eq!(Color::CYAN, Color::new_color(0, 255, 255));
    assert_eq!(Color::ORANGE, Color::new_color(128, 128, 0));
    assert_eq!(Color::PURPLE, Color::new_color(128, 0, 128));
    assert_eq!(Color::BLUEGREEN, Color::new_color(0, 128, 128));
    assert_eq!(Color::DARKBLUE, Color::new_color(0, 0, 139));
    assert_eq!(Color::DARKGREEN, Color::new_color(0, 139, 0));
    assert_eq!(Color::DARKRED, Color::new_color(139, 0, 0));
}

#[test]
fn session_without_direction_calls_nothing() {
    let (screen, calls) = Screen::new(None);
    assert!(calls.is_empty());
    assert_eq!(screen.screen_dir(), None);
    assert_eq!(screen.font_size(), FontSize::Font12x20);
    assert_eq!(screen.screen_size(), (0, 0));
}

#[test]
fn session_with_direction_opens_blanks_and_refreshes() {
    let (screen, calls) = Screen::new(Some(ScreenDirection::Horizontal));
    assert_eq!(
        calls,
        vec![
            NativeCall::LcdOpen { direction: 2 },
            NativeCall::UgFillScreen { color: 0 },
            NativeCall::LcdRefresh,
        ]
    );
    assert_eq!(screen.screen_dir(), Some(ScreenDirection::Horizontal));
    assert_eq!(screen.font_size(), FontSize::Font12x20);
    assert_eq!(screen.screen_size(), (0, 0));

    let (screen, calls) = Screen::new(Some(ScreenDirection::Vertical));
    assert_eq!(calls[0], NativeCall::LcdOpen { direction: 1 });
    assert_eq!(calls.len(), 3);
    assert_eq!(screen.screen_dir(), Some(ScreenDirection::Vertical));
}

#[test]
fn open_remembers_the_direction() {
    let mut screen = closed_screen();
    assert_eq!(screen.open(ScreenDirection::Vertical), NativeCall::LcdOpen { direction: 1 });
    assert_eq!(screen.screen_dir(), Some(ScreenDirection::Vertical));
    assert_eq!(screen.open(ScreenDirection::Horizontal), NativeCall::LcdOpen { direction: 2 });
    assert_eq!(screen.screen_dir(), Some(ScreenDirection::Horizontal));
    assert_eq!(screen.font_size(), FontSize::Font12x20);
    assert_eq!(screen.screen_size(), (0, 0));
}

#[test]
fn close_keeps_the_direction() {
    let (mut screen, _) = Screen::new(Some(ScreenDirection::Vertical));
    assert_eq!(screen.close(), NativeCall::LcdClose);
    assert_eq!(screen.screen_dir(), Some(ScreenDirection::Vertical));
}

#[test]
fn refresh_is_one_call() {
    let mut screen = closed_screen();
    assert_eq!(screen.refresh(), NativeCall::LcdRefresh);
    assert_eq!(screen.refresh().symbol(), "LCD_Refresh");
}

#[test]
fn font_choice_is_remembered_and_sent_by_code() {
    let mut screen = closed_screen();
    for font in FONTS.iter() {
        let call = screen.set_font_size(*font);
        assert_eq!(call, NativeCall::LcdSetFont { font: font.code() });
        assert_eq!(screen.font_size(), *font);
        assert_eq!(screen.screen_dir(), None);
    }
    assert_eq!(screen.set_font_size(FontSize::Font8x8), NativeCall::LcdSetFont { font: 6 });
}

#[test]
fn colors_are_sent_as_given() {
    let mut screen = closed_screen();
    assert_eq!(screen.set_fore_color(Color::RED), NativeCall::UgSetForecolor { color: 0xFF0000 });
    assert_eq!(screen.set_back_color(Color::CYAN), NativeCall::UgSetBackcolor { color: 0x00FFFF });
    assert_eq!(screen.set_fore_color(u32::MAX), NativeCall::UgSetForecolor { color: u32::MAX });
    assert_eq!(screen.fill_screen(Color::GRAY), NativeCall::UgFillScreen { color: 0x808080 });
}

#[test]
fn led_color_names_the_led() {
    let mut screen = closed_screen();
    assert_eq!(screen.set_led_color(0, 7), NativeCall::AdcLedSet { index: 0, color: 7 });
    assert_eq!(screen.set_led_color(1, 8), NativeCall::AdcLedSet { index: 1, color: 8 });
    assert_eq!(screen.set_led_color(-4, 9), NativeCall::AdcLedSet { index: -4, color: 9 });
    assert_eq!(screen.set_led_0(Color::GREEN), NativeCall::AdcLedSet { index: 0, color: 0x00FF00 });
    assert_eq!(screen.set_led_1(Color::BLUE), NativeCall::AdcLedSet { index: 1, color: 0x0000FF });
}

#[test]
fn both_leds_are_set_first_led_first() {
    let mut screen = closed_screen();
    assert_eq!(
        screen.set_all_leds_same(Color::YELLOW),
        vec![
            NativeCall::AdcLedSet { index: 0, color: 0xFFFF00 },
            NativeCall::AdcLedSet { index: 1, color: 0xFFFF00 },
        ]
    );
    assert_eq!(
        screen.set_all_leds_single(Color::RED, Color::BLUE),
        vec![
            NativeCall::AdcLedSet { index: 0, color: 0xFF0000 },
            NativeCall::AdcLedSet { index: 1, color: 0x0000FF },
        ]
    );
    assert_eq!(
        screen.set_all_leds_off(),
        vec![
            NativeCall::AdcLedSet { index: 0, color: 0 },
            NativeCall::AdcLedSet { index: 1, color: 0 },
        ]
    );
}

#[test]
fn strings_are_sent_with_their_place() {
    let mut screen = closed_screen();
    assert_eq!(
        screen.put_string(3, -4, "hello"),
        NativeCall::UgPutString { x: 3, y: -4, text: String::from("hello") }
    );
    assert_eq!(
        screen.put_string(0, 12, "温度 21°C"),
        NativeCall::UgPutString { x: 0, y: 12, text: String::from("温度 21°C") }
    );
    assert_eq!(
        screen.put_string(1, 1, ""),
        NativeCall::UgPutString { x: 1, y: 1, text: String::new() }
    );
}

#[test]
fn print_starts_at_the_top_left() {
    let mut screen = closed_screen();
    assert_eq!(
        screen.print("ready"),
        NativeCall::UgPutString { x: 0, y: 0, text: String::from("ready") }
    );
    assert_eq!(screen.print("x"), screen.put_string(0, 0, "x"));
}

#[test]
fn shapes_are_sent_with_their_arguments_in_order() {
    let mut screen = closed_screen();
    assert_eq!(
        screen.fill_frame(1, 2, 3, 4, 5),
        NativeCall::UgFillFrame { x1: 1, y1: 2, x2: 3, y2: 4, color: 5 }
    );
    assert_eq!(
        screen.fill_round_frame(1, 2, 3, 4, 5, 6),
        NativeCall::UgFillRoundFrame { x1: 1, y1: 2, x2: 3, y2: 4, r: 5, color: 6 }
    );
    assert_eq!(
        screen.fill_circle(1, 2, 3, 4),
        NativeCall::UgFillCircle { x0: 1, y0: 2, r: 3, color: 4 }
    );
    assert_eq!(
        screen.draw_mesh(1, 2, 3, 4, 5),
        NativeCall::UgDrawMesh { x1: 1, y1: 2, x2: 3, y2: 4, color: 5 }
    );
    assert_eq!(
        screen.draw_frame(1, 2, 3, 4, 5),
        NativeCall::UgDrawFrame { x1: 1, y1: 2, x2: 3, y2: 4, color: 5 }
    );
    assert_eq!(
        screen.draw_round_frame(1, 2, 3, 4, 5, 6),
        NativeCall::UgDrawRoundFrame { x1: 1, y1: 2, x2: 3, y2: 4, r: 5, color: 6 }
    );
    assert_eq!(screen.draw_pixel(1, 2, 3), NativeCall::UgDrawPixel { x0: 1, y0: 2, color: 3 });
    assert_eq!(
        screen.draw_circle(1, 2, 3, 4),
        NativeCall::UgDrawCircle { x0: 1, y0: 2, r: 3, color: 4 }
    );
    assert_eq!(
        screen.draw_arc(1, 2, 3, 4, 5),
        NativeCall::UgDrawArc { x0: 1, y0: 2, r: 3, s: 4, color: 5 }
    );
    assert_eq!(
        screen.draw_line(1, 2, 3, 4, 5),
        NativeCall::UgDrawLine { x1: 1, y1: 2, x2: 3, y2: 4, color: 5 }
    );
}

#[test]
fn drawing_leaves_the_session_as_it_was() {
    let (mut screen, _) = Screen::new(Some(ScreenDirection::Vertical));
    screen.set_font_size(FontSize::Font6x10);
    screen.fill_frame(0, 0, 10, 10, Color::WHITE);
    screen.draw_line(-5, 0, 200, 300, Color::RED);
    screen.set_all_leds_off();
    screen.print("text");
    screen.refresh();
    screen.close();
    assert_eq!(screen.screen_dir(), Some(ScreenDirection::Vertical));
    assert_eq!(screen.font_size(), FontSize::Font6x10);
    assert_eq!(screen.screen_size(), (0, 0));
}

#[test]
fn coordinates_are_not_held_to_the_panel() {
    let mut screen = closed_screen();
    assert_eq!(
        screen.draw_pixel(i32::MIN, i32::MAX, u32::MAX),
        NativeCall::UgDrawPixel { x0: i32::MIN, y0: i32::MAX, color: u32::MAX }
    );
}
