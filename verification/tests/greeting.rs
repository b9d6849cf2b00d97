use spin::Mutex;
use vga_text::color::{encode, Color, ColorScheme};
use vga_text::greeting::show_greeting;
use vga_text::model::{ScreenChar, COLS, ROWS};
use vga_text::screen::Screen;

fn expect_greeting(screen: &Screen, fill: u8) {
    let text = b"Hello, world!";
    assert_eq!(text.len(), 13);
    for row in 0..ROWS {
        for col in 0..COLS {
            let cell = screen.cell(row, col).expect("a cell inside the buffer");
            if row == 0 && col < 13 {
                assert_eq!(cell, ScreenChar { ascii: text[col], color: 0x8E });
            } else {
                assert_eq!(cell, ScreenChar { ascii: 0x20, color: fill });
            }
        }
    }
    assert_eq!(screen.position(), (0, 13));
    assert_eq!(screen.colors(), ColorScheme::new(Color::Yellow, Color::DarkGrey));
}

#[test]
fn hello_world_in_yellow_on_dark_grey() {
    let mut screen = Screen::new();
    screen.clear(Color::DarkGrey);
    screen.set_colors(ColorScheme::new(Color::Yellow, Color::DarkGrey));
    screen.write(b"Hello, world!");
    assert_eq!(encode(Color::Yellow, Color::DarkGrey), 0x8E);
    assert_eq!(encode(Color::LightGrey, Color::DarkGrey), 0x87);
    expect_greeting(&screen, 0x87);
}

#[test]
fn show_greeting_paints_the_same_screen() {
    let mut screen = Screen::new();
    show_greeting(&mut screen);
    expect_greeting(&screen, 0x87);
}

#[test]
fn show_greeting_starts_over_on_a_used_screen() {
    let mut screen = Screen::new();
    screen.set_colors(ColorScheme::new(Color::White, Color::Blue));
    screen.write(&[b'?'; 500]);
    show_greeting(&mut screen);
    expect_greeting(&screen, encode(Color::White, Color::DarkGrey));
}

#[test]
fn show_greeting_twice_fills_in_yellow() {
    let mut screen = Screen::new();
    show_greeting(&mut screen);
    show_greeting(&mut screen);
    expect_greeting(&screen, 0x8E);
}

#[test]
fn greeting_behind_a_spin_lock() {
    let shared = Mutex::new(Screen::new());
    {
        let mut screen = shared.lock();
        screen.clear(Color::DarkGrey);
        screen.set_colors(ColorScheme::new(Color::Yellow, Color::DarkGrey));
        screen.write(b"Hello, world!");
    }
    assert!(!shared.is_locked());
    let screen = shared.lock();
    assert!(shared.try_lock().is_none());
    expect_greeting(&screen, 0x87);
}
