use tinix::api::clock::{date_time, days_before_month, days_before_year, is_leap_year, Date, Time};
use tinix::gfx::{draw_string, Display};
use tinix::maths::clamp_us;
use tinix::api::sysinf::{base_frequency_or_zero, cpu_base_frequency};
use tinix::io::terminal::{get_char, StandardOut, Terminal};
use tinix::interrupts::global_timer::Timer;
use tinix::gfx::vga::{Char, Color, ColorCode, ScreenBuffer, SCREEN_HEIGHT, SCREEN_WIDTH};
use tinix::gfx::widgets::TextArea;

#[test]
fn elapsed_seconds_at_100_hz_after_250_ticks() {
    let mut t = Timer::new();
    t.set_tick_rate(100);
    for _ in 0..250 {
        t.update();
    }
    assert_eq!(t.current_tick(), 250);
    let (whole, rest) = t.elapsed_seconds().unwrap();
    assert_eq!((whole, rest), (2, 50));
    let seconds = whole as f64 + rest as f64 / t.get_frequency() as f64;
    assert_eq!(seconds, 2.5);
}

#[test]
fn elapsed_minutes_and_reset() {
    let mut t = Timer::new();
    assert_eq!(t.elapsed_seconds(), None);
    assert_eq!(t.elapsed_minutes(), None);
    t.set_tick_rate(2);
    for _ in 0..250 {
        t.update();
    }
    assert_eq!(t.elapsed_minutes(), Some((2, 10)));
    assert_eq!(t.elapsed_seconds(), Some((125, 0)));
    t.reset();
    assert_eq!(t.current_tick(), 0);
    assert_eq!(t.get_frequency(), 2);
}

#[test]
fn leap_years() {
    assert!(is_leap_year(2024));
    assert!(!is_leap_year(2023));
    assert!(!is_leap_year(1900));
    assert!(is_leap_year(2000));
}

#[test]
fn days_before_years_and_months() {
    assert_eq!(days_before_year(1970), 0);
    assert_eq!(days_before_year(1960), 0);
    assert_eq!(days_before_year(1971), 365);
    assert_eq!(days_before_year(1973), 1096);
    assert_eq!(days_before_year(2000), 10957);
    assert_eq!(days_before_month(2023, 1), 0);
    assert_eq!(days_before_month(2023, 3), 59);
    assert_eq!(days_before_month(2024, 3), 60);
    assert_eq!(days_before_month(2024, 2), 31);
    assert_eq!(days_before_month(2023, 13), 365);
}

#[test]
fn timestamp_of_a_date_time() {
    let dt = date_time(
        Date { year: 2021, month: 3, day: 14 },
        Time { hour: 15, minute: 9, second: 26 },
    );
    assert_eq!(dt.timestamp(), 1615734566);
    let epoch = date_time(Date { year: 1970, month: 1, day: 1 }, Time { hour: 0, minute: 0, second: 0 });
    assert_eq!(epoch.timestamp(), 0);
}

#[test]
fn clamp_limits_to_range() {
    assert_eq!(clamp_us(5, 2, 8), 5);
    assert_eq!(clamp_us(1, 2, 8), 2);
    assert_eq!(clamp_us(9, 2, 8), 8);
}

#[test]
fn base_frequency_falls_back_to_zero() {
    assert_eq!(base_frequency_or_zero(None), 0);
    assert_eq!(base_frequency_or_zero(Some(2400)), 2400);
    let _mhz: u16 = cpu_base_frequency();
}

#[test]
fn text_area_lines_and_scrolling() {
    let mut area = TextArea::new(0, 0, 10, 40, (Color::White, Color::Blue));
    assert_eq!(area.size(), 0);
    area.append_line(String::from("one"));
    area.append_line(String::from("two"));
    area.append_line(String::from("three"));
    assert_eq!(area.size(), 3);
    area.remove_index(1);
    assert_eq!(area.size(), 2);
    assert_eq!(area.visible_range(), (0, 2));
    assert_eq!(area.line(1), "three");
    assert!(area.line_numbers_enabled());
    area.set_index(4);
    area.scroll(3);
    area.scroll(-2);
    area.set_index(50);
    area.scroll(-100);
    area.enable_line_nos();
    area.disable_line_nos();
    assert_eq!(area.size(), 2);
}

#[test]
fn text_area_shows_last_lines() {
    let mut area = TextArea::new(0, 0, 2, 40, (Color::White, Color::Blue));
    for word in ["a", "b", "c", "d", "e"] {
        area.append_line(String::from(word));
    }
    assert_eq!(area.visible_range(), (3, 5));
    assert_eq!(area.line(3), "d");
    area.disable_line_nos();
    assert!(!area.line_numbers_enabled());
}

fn terminal_display() -> Display {
    Display::new(Char::blank(ColorCode::from_u8(0x07)))
}

#[test]
fn terminal_writes_on_bottom_row_and_scrolls() {
    let mut d = terminal_display();
    let mut term = Terminal::new(ColorCode::from_colors(Color::White, Color::Blue));
    term.print_u8(&mut d, b'a');
    term.print_u8(&mut d, b'b');
    assert_eq!(get_char(&d, 0, 24).code_point, b'a');
    assert_eq!(get_char(&d, 1, 24).code_point, b'b');
    assert_eq!(get_char(&d, 1, 24).color.as_u8(), 0x1F);
    term.print_u8(&mut d, b'\n');
    assert_eq!(get_char(&d, 0, 23).code_point, b'a');
    assert_eq!(get_char(&d, 0, 24).code_point, b' ');
    assert_eq!(get_char(&d, 0, 24).color.as_u8(), 0x1F);
    term.print_u8(&mut d, b'\t');
    term.print_u8(&mut d, b'c');
    assert_eq!(get_char(&d, 5, 24).code_point, b'c');
    assert_eq!(get_char(&d, 4, 24).code_point, b' ');
}

#[test]
fn terminal_drops_byte_when_row_is_full() {
    let mut d = terminal_display();
    let mut term = Terminal::new(ColorCode::from_u8(0x02));
    for _ in 0..SCREEN_WIDTH {
        term.print_u8(&mut d, b'x');
    }
    assert_eq!(get_char(&d, 79, 24).code_point, b'x');
    term.print_u8(&mut d, b'y');
    assert_eq!(get_char(&d, 79, 23).code_point, b'x');
    assert_eq!(get_char(&d, 0, 24).code_point, b' ');
    term.print_u8(&mut d, b'z');
    assert_eq!(get_char(&d, 0, 24).code_point, b'z');
}

#[test]
fn terminal_print_str_swaps() {
    let mut d = terminal_display();
    draw_string(&mut d, 0, 0, "next", (Color::White, Color::Black));
    let old_visible = ScreenBuffer::filled(Char::new(b'v', ColorCode::from_u8(0x07)));
    old_visible.copy_to(&mut d.visible);
    let mut term = Terminal::new(ColorCode::from_u8(0x07));
    term.print_str(&mut d, "hello");
    assert_eq!(d.visible.get_ascii_char(0, 0), b'n');
    for y in 0..SCREEN_HEIGHT {
        for x in 0..SCREEN_WIDTH {
            assert_eq!(get_char(&d, x, y).code_point, b'v');
        }
    }
    let _out = StandardOut::get();
}
