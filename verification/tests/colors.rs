use vga_text::color::{encode, Color, ColorScheme};

const ALL: [Color; 16] = [
    Color::Black,
    Color::Blue,
    Color::Green,
    Color::Cyan,
    Color::Red,
    Color::Magenta,
    Color::Brown,
    Color::LightGrey,
    Color::DarkGrey,
    Color::LightBlue,
    Color::LightGreen,
    Color::LightCyan,
    Color::LightRed,
    Color::Pink,
    Color::Yellow,
    Color::White,
];

#[test]
fn codes_follow_the_hardware_table() {
    assert_eq!(Color::Black.code(), 0);
    assert_eq!(Color::Blue.code(), 1);
    assert_eq!(Color::Green.code(), 2);
    assert_eq!(Color::Cyan.code(), 3);
    assert_eq!(Color::Red.code(), 4);
    assert_eq!(Color::Magenta.code(), 5);
    assert_eq!(Color::Brown.code(), 6);
    assert_eq!(Color::LightGrey.code(), 7);
    assert_eq!(Color::DarkGrey.code(), 8);
    assert_eq!(Color::LightBlue.code(), 9);
    assert_eq!(Color::LightGreen.code(), 10);
    assert_eq!(Color::LightCyan.code(), 11);
    assert_eq!(Color::LightRed.code(), 12);
    assert_eq!(Color::Pink.code(), 13);
    assert_eq!(Color::Yellow.code(), 14);
    assert_eq!(Color::White.code(), 15);
}

#[test]
fn codes_fit_in_four_bits_and_differ() {
    for (i, a) in ALL.iter().enumerate() {
        assert!(a.code() < 16);
        assert_eq!(a.code() as usize, i);
        for (j, b) in ALL.iter().enumerate() {
            assert_eq!(a.code() == b.code(), i == j);
            assert_eq!(a == b, i == j);
        }
    }
}

#[test]
fn encode_packs_background_high_foreground_low() {
    for fg in ALL {
        for bg in ALL {
            let byte = encode(fg, bg);
            assert_eq!(byte, (bg.code() << 4) | fg.code());
            assert_eq!(byte & 0x0F, fg.code());
            assert_eq!(byte >> 4, bg.code());
            assert_eq!(byte as u32, 16 * bg.code() as u32 + fg.code() as u32);
        }
    }
}

#[test]
fn encode_exact_values() {
    assert_eq!(encode(Color::Black, Color::Black), 0x00);
    assert_eq!(encode(Color::LightGrey, Color::Black), 0x07);
    assert_eq!(encode(Color::Yellow, Color::DarkGrey), 0x8E);
    assert_eq!(encode(Color::DarkGrey, Color::Yellow), 0xE8);
    assert_eq!(encode(Color::White, Color::Blue), 0x1F);
    assert_eq!(encode(Color::White, Color::White), 0xFF);
    assert_eq!(encode(Color::Black, Color::White), 0xF0);
}

#[test]
fn encode_maps_the_256_pairs_to_256_bytes() {
    let mut seen = [false; 256];
    for fg in ALL {
        for bg in ALL {
            let byte = encode(fg, bg) as usize;
            assert!(!seen[byte], "two pairs share the byte {byte:#04x}");
            seen[byte] = true;
        }
    }
    assert!(seen.iter().all(|hit| *hit));
}

#[test]
fn encode_is_not_symmetric() {
    assert_ne!(encode(Color::Red, Color::Blue), encode(Color::Blue, Color::Red));
    assert_eq!(encode(Color::Red, Color::Blue), 0x14);
    assert_eq!(encode(Color::Blue, Color::Red), 0x41);
}

#[test]
fn scheme_keeps_its_two_colours() {
    let scheme = ColorScheme::new(Color::Yellow, Color::DarkGrey);
    assert_eq!(scheme.foreground, Color::Yellow);
    assert_eq!(scheme.background, Color::DarkGrey);
    assert_eq!(scheme, ColorScheme { foreground: Color::Yellow, background: Color::DarkGrey });
    assert_ne!(scheme, ColorScheme::new(Color::DarkGrey, Color::Yellow));
}

#[test]
fn scheme_attribute_is_the_encoding() {
    for fg in ALL {
        for bg in ALL {
            assert_eq!(ColorScheme::new(fg, bg).attribute(), encode(fg, bg));
        }
    }
    assert_eq!(ColorScheme::new(Color::Yellow, Color::DarkGrey).attribute(), 0x8E);
}

#[test]
fn default_scheme_is_light_grey_on_black() {
    let scheme = ColorScheme::default();
    assert_eq!(scheme.foreground, Color::LightGrey);
    assert_eq!(scheme.background, Color::Black);
    assert_eq!(scheme.attribute(), 0x07);
}
