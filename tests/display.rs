use tinix::gfx::{
    clear, draw, draw_rect, draw_string, get_bg, set_cell, set_cell_color, string_fits, swap,
    Black, Blue, Cyan, Display, Green, VgaWriter,
};
use tinix::gfx::vga::{
    Char, Color, ColorCode, GraphicsBuffer, Pixel, ScreenBuffer, VgaMode, SCREEN_HEIGHT,
    SCREEN_WIDTH,
};

fn blank_display() -> Display {
    Display::new(Char::blank(ColorCode::from_colors(Color::White, Color::Black)))
}

#[test]
fn attribute_round_trip_for_all_pairs() {
    for f in 0..16u8 {
        for b in 0..16u8 {
            let fg = Color::from_u8(f);
            let bg = Color::from_u8(b);
            let code = ColorCode::from_colors(fg, bg);
            assert_eq!(code.fg_as_color(), fg);
            assert_eq!(code.bg_as_color(), bg);
            assert_eq!(code.as_u8(), b * 16 + f);
        }
    }
}

#[test]
fn attribute_nibbles() {
    let code = ColorCode::from_colors(Color::Yellow, Color::Blue);
    assert_eq!(code.as_u8(), 0x1E);
    assert_eq!(code.fg_as_u8(), 14);
    assert_eq!(code.bg_as_u8(), 1);
    assert_eq!(ColorCode::from_u8(0xA7).bg_as_color(), Color::LightGreen);
    assert_eq!(ColorCode::from_u8(0xA7).fg_as_color(), Color::LightGray);
}

#[test]
fn setters_keep_the_other_nibble() {
    let mut code = ColorCode::from_colors(Color::White, Color::Red);
    code.set_fg_from_u8(2);
    assert_eq!(code.as_u8(), 0x42);
    code.set_bg_from_u8(9);
    assert_eq!(code.as_u8(), 0x92);
    code.set_fg_from_color(Color::Cyan);
    assert_eq!(code.fg_as_color(), Color::Cyan);
    assert_eq!(code.bg_as_color(), Color::LightBlue);
    code.set_bg_from_color(Color::Black);
    assert_eq!(code.as_u8(), 0x03);
    code.set_fg_from_u8(0x1F);
    assert_eq!(code.as_u8(), 0x0F);
}

#[test]
fn color_from_u8_wraps_mod_16() {
    assert_eq!(Color::from_u8(0), Color::Black);
    assert_eq!(Color::from_u8(15), Color::White);
    assert_eq!(Color::from_u8(16), Color::Black);
    assert_eq!(Color::from_u8(0x2C), Color::LightRed);
    assert_eq!(Color::Pink.as_u8(), 13);
}

#[test]
fn cells_and_pixels() {
    let code = ColorCode::from_u8(0x1F);
    assert_eq!(Char::new(b'Z', code), Char { code_point: b'Z', color: code });
    assert_eq!(Char::blank(code).code_point, b' ');
    assert_eq!(Pixel::from_color(Color::Brown).as_u8(), 6);
    assert_eq!(Pixel::new(200).as_u8(), 200);
    assert_eq!(Pixel::from_u8(7), Pixel(7));
    assert_eq!(VgaMode::TEXT_80x25.as_u8(), 0x03);
    assert_eq!(VgaMode::GFX_320x200.as_u8(), 0x13);
}

#[test]
fn draw_plain_string_at_sequential_columns() {
    let mut d = blank_display();
    draw_string(&mut d, 3, 2, "Hi!\nok", (Color::Yellow, Color::Blue));
    let attr = ColorCode::from_colors(Color::Yellow, Color::Blue);
    assert_eq!(d.staging_a.get_char(3, 2), Char::new(b'H', attr));
    assert_eq!(d.staging_a.get_char(4, 2), Char::new(b'i', attr));
    assert_eq!(d.staging_a.get_char(5, 2), Char::new(b'!', attr));
    assert_eq!(d.staging_a.get_char(3, 3), Char::new(b'o', attr));
    assert_eq!(d.staging_a.get_char(4, 3), Char::new(b'k', attr));
    assert_eq!(d.staging_a.get_ascii_char(6, 2), b' ');
    assert_eq!(d.staging_a.get_ascii_char(2, 3), b' ');
}

#[test]
fn escape_sets_foreground_keeps_background() {
    let mut d = blank_display();
    draw_string(&mut d, 0, 0, "\x11ABC", (Color::White, Color::Green));
    for (i, ch) in "ABC".bytes().enumerate() {
        let cell = d.staging_a.get_char(i, 0);
        assert_eq!(cell.code_point, ch);
        assert_eq!(d.staging_a.get_fg_as_color(i, 0), Color::Blue);
        assert_eq!(d.staging_a.get_bg_as_color(i, 0), Color::Green);
        assert_eq!(d.staging_a.get_fg_as_u8(i, 0), 1);
        assert_eq!(d.staging_a.get_bg_as_u8(i, 0), 2);
    }
    assert_eq!(d.staging_a.get_ascii_char(3, 0), b' ');
}

#[test]
fn escape_sets_background() {
    let mut d = blank_display();
    draw_string(&mut d, 10, 5, "a\x04b", (Color::White, Color::Black));
    assert_eq!(d.staging_a.get_bg_as_color(10, 5), Color::Black);
    assert_eq!(d.staging_a.get_char(11, 5).code_point, b'b');
    assert_eq!(d.staging_a.get_bg_as_color(11, 5), Color::Red);
    assert_eq!(d.staging_a.get_fg_as_color(11, 5), Color::White);
}

#[test]
fn string_fits_checks_bounds() {
    assert!(string_fits(0, 0, "hello", (Color::White, Color::Black)));
    assert!(string_fits(75, 24, "hello", (Color::White, Color::Black)));
    assert!(!string_fits(76, 24, "hello", (Color::White, Color::Black)));
    assert!(!string_fits(0, 24, "a\nb", (Color::White, Color::Black)));
    assert!(string_fits(0, 24, "a\n\x12", (Color::White, Color::Black)));
    assert!(string_fits(500, 500, "", (Color::White, Color::Black)));
}

#[test]
fn swap_presents_staging_a() {
    let mut d = blank_display();
    let before_visible = ScreenBuffer::filled(Char::new(b'V', ColorCode::from_u8(0x07)));
    before_visible.copy_to(&mut d.visible);
    draw_string(&mut d, 0, 0, "pattern", (Color::Red, Color::Black));
    set_cell(&mut d, 79, 24, b'#', Color::Green, Color::Black);
    let mut pattern = ScreenBuffer::filled(Char::blank(ColorCode::from_u8(0)));
    d.staging_a.copy_to(&mut pattern);
    swap(&mut d);
    for y in 0..SCREEN_HEIGHT {
        for x in 0..SCREEN_WIDTH {
            assert_eq!(d.visible.get_char(x, y), pattern.get_char(x, y));
            assert_eq!(d.staging_b.get_char(x, y), before_visible.get_char(x, y));
            assert_eq!(d.scratch.get_char(x, y), before_visible.get_char(x, y));
            assert_eq!(d.staging_a.get_char(x, y), pattern.get_char(x, y));
        }
    }
    assert_eq!(d.visible.get_ascii_char(0, 0), b'p');
    assert_eq!(d.visible.get_ascii_char(79, 24), b'#');
}

#[test]
fn clear_fills_white_on_color() {
    let mut d = blank_display();
    draw(&mut d, 4, 4, b'x', Color::Red, Color::Red);
    clear(&mut d, Color::Magenta);
    for y in 0..SCREEN_HEIGHT {
        for x in 0..SCREEN_WIDTH {
            let cell = d.staging_a.get_char(x, y);
            assert_eq!(cell.code_point, b' ');
            assert_eq!(cell.color.as_u8(), 0x5F);
        }
    }
    assert_eq!(get_bg(&d, 4, 4), Color::Magenta);
}

#[test]
fn rect_fills_only_its_area() {
    let mut d = blank_display();
    draw_rect(&mut d, 2, 3, 4, 2, Color::Cyan);
    for y in 0..SCREEN_HEIGHT {
        for x in 0..SCREEN_WIDTH {
            let inside = (2..6).contains(&x) && (3..5).contains(&y);
            let expected = if inside { Color::Cyan } else { Color::Black };
            assert_eq!(get_bg(&d, x, y), expected);
        }
    }
    assert_eq!(d.staging_a.get_fg_as_color(2, 3), Color::Black);
}

#[test]
fn set_cell_color_paints_blank() {
    let mut d = blank_display();
    set_cell_color(&mut d, 1, 1, Color::Pink, Color::Yellow);
    let cell = d.staging_a.get_char(1, 1);
    assert_eq!(cell.code_point, b' ');
    assert_eq!(cell.color.as_u8(), 0xED);
    assert_eq!(d.visible.get_ascii_char(1, 1), b' ');
    assert_eq!(d.visible.get_char(1, 1).color.as_u8(), 0x0F);
}

#[test]
fn writer_prints_at_its_position() {
    let mut d = blank_display();
    let w = VgaWriter::new(7, 8, (Color::LightCyan, Color::DarkGray));
    w.print_str(&mut d, "ab");
    assert_eq!(d.staging_a.get_ascii_char(7, 8), b'a');
    assert_eq!(d.staging_a.get_ascii_char(8, 8), b'b');
    assert_eq!(d.staging_a.get_char(8, 8).color.as_u8(), 0x8B);
}

#[test]
fn colored_text_prefixes() {
    assert_eq!(Black::new("k").to_bytes(), vec![0x00, b'k']);
    assert_eq!(Blue::new("sky").to_bytes(), vec![0x01, b's', b'k', b'y']);
    assert_eq!(Green::new("").to_bytes(), vec![0x02]);
    assert_eq!(Cyan::new("c").to_bytes(), vec![0x03, b'c']);
}

#[test]
fn prefixed_text_draws_in_background_color() {
    let mut d = blank_display();
    let bytes = Blue::new("z").to_bytes();
    let text = String::from_utf8(bytes).unwrap();
    draw_string(&mut d, 0, 0, &text, (Color::White, Color::Black));
    assert_eq!(d.staging_a.get_ascii_char(0, 0), b'z');
    assert_eq!(d.staging_a.get_bg_as_color(0, 0), Color::Blue);
}

#[test]
fn graphics_buffer_pixels() {
    let mut g = GraphicsBuffer::new(Pixel(0));
    g.set_pixel(319, 199, Pixel(42));
    assert_eq!(g.get_pixel(319, 199), Pixel(42));
    assert_eq!(g.get_pixel(0, 0), Pixel(0));
    g.fill(Pixel::from_color(Color::Yellow));
    assert_eq!(g.get_pixel(319, 199).as_u8(), 14);
    assert_eq!(g.get_pixel(160, 100).as_u8(), 14);
}

#[test]
fn screen_buffer_shift_rows_up() {
    let mut b = ScreenBuffer::filled(Char::blank(ColorCode::from_u8(0)));
    b.set_char(5, 1, Char::new(b'q', ColorCode::from_u8(1)));
    b.set_char(5, 24, Char::new(b'z', ColorCode::from_u8(2)));
    b.shift_rows_up();
    assert_eq!(b.get_ascii_char(5, 0), b'q');
    assert_eq!(b.get_ascii_char(5, 23), b'z');
    assert_eq!(b.get_ascii_char(5, 24), b'z');
    assert_eq!(b.get_ascii_char(5, 1), b' ');
}
