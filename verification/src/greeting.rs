//! The greeting that the display shows once the machine is up.

use vstd::prelude::*;
use crate::color::{encode, encode_as_sum, Color, ColorScheme};
use crate::laws::write_within_row;
use crate::model::{ScreenChar, ScreenView, BLANK, CELLS};
use crate::screen::Screen;

verus! {

/// The bytes of the greeting, `Hello, world!` in ASCII.
pub open spec fn greeting_text() -> Seq<u8> {
    seq![0x48, 0x65, 0x6C, 0x6C, 0x6F, 0x2C, 0x20, 0x77, 0x6F, 0x72, 0x6C, 0x64, 0x21]
}

/// Clears the screen to dark grey and writes the greeting in yellow on dark
/// grey, from the top left corner on. The thirteen cells of the greeting get
/// the attribute byte `0x8E`; the cells behind it keep the fill of the
/// cleared screen, in the foreground colour that was current before the call.
pub fn show_greeting(screen: &mut Screen)
    ensures
        final(screen)@ == old(screen)@.cleared(Color::DarkGrey).with_colors(
            (ColorScheme { foreground: Color::Yellow, background: Color::DarkGrey }),
        ).write(greeting_text()),
        final(screen)@.valid(),
        final(screen)@.row == 0,
        final(screen)@.col == 13,
        final(screen)@.colors == (ColorScheme {
            foreground: Color::Yellow,
            background: Color::DarkGrey,
        }),
        forall|k: int|
            0 <= k < 13 ==> final(screen)@.cells[k] == (ScreenChar {
                ascii: greeting_text()[k],
                color: 0x8E,
            }),
        forall|i: int|
            13 <= i < CELLS ==> final(screen)@.cells[i] == (ScreenChar {
                ascii: BLANK,
                color: encode(old(screen)@.colors.foreground, Color::DarkGrey),
            }),
{
    screen.clear(Color::DarkGrey);
    let ghost cleared = screen@;
    screen.set_colors(ColorScheme::new(Color::Yellow, Color::DarkGrey));
    let ghost colored = screen@;
    let text: [u8; 13] = [
        0x48,
        0x65,
        0x6C,
        0x6C,
        0x6F,
        0x2C,
        0x20,
        0x77,
        0x6F,
        0x72,
        0x6C,
        0x64,
        0x21,
    ];
    screen.write(&text);
    proof {
        assert(text@ =~= greeting_text());
        write_within_row(colored, greeting_text());
        encode_as_sum(Color::Yellow, Color::DarkGrey);
        assert forall|i: int| 13 <= i < CELLS implies screen@.cells[i] == (ScreenChar {
            ascii: BLANK,
            color: encode(old(screen)@.colors.foreground, Color::DarkGrey),
        }) by {
            assert(screen@.cells[i] == colored.cells[i]);
            assert(colored.cells[i] == cleared.cells[i]);
        }
    }
}

} // verus!
