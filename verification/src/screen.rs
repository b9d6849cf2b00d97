//! The driver itself: a screen that owns its cell buffer.

use vstd::prelude::*;
use crate::color::{encode, Color, ColorScheme};
use crate::model::{ScreenChar, ScreenView, BLANK, CELLS, COLS, NEWLINE, ROWS};

verus! {

/// The text display: the cell buffer, the colours of the next character and
/// the cursor. The cursor always lies inside the buffer.
pub struct Screen {
    cells: [ScreenChar; CELLS],
    colors: ColorScheme,
    row: usize,
    col: usize,
}

impl View for Screen {
    type V = ScreenView;

    closed spec fn view(&self) -> ScreenView {
        ScreenView {
            cells: self.cells@,
            colors: self.colors,
            row: self.row as int,
            col: self.col as int,
        }
    }
}

impl Screen {
    #[verifier::type_invariant]
    spec fn cursor_in_buffer(self) -> bool {
        self.row < ROWS && self.col < COLS
    }

    /// A blank screen in the default colours, light grey on black, with the
    /// cursor in the top left corner.
    pub fn new() -> (screen: Self)
        ensures
            screen@ == ScreenView::blank(
                (ColorScheme { foreground: Color::LightGrey, background: Color::Black }),
            ),
            screen@.valid(),
    {
        let colors = ColorScheme::default();
        let fill = ScreenChar { ascii: BLANK, color: colors.attribute() };
        let screen = Screen { cells: [fill; CELLS], colors, row: 0, col: 0 };
        assert(screen@.cells =~= ScreenView::blank(colors).cells);
        screen
    }

    /// Fills the whole buffer with spaces on `background`, in the current
    /// foreground colour, and puts the cursor in the top left corner. The
    /// current colours stay as they are.
    pub fn clear(&mut self, background: Color)
        ensures
            final(self)@ == old(self)@.cleared(background),
            final(self)@.valid(),
            final(self)@.row == 0,
            final(self)@.col == 0,
            final(self)@.colors == old(self)@.colors,
            forall|i: int|
                0 <= i < CELLS ==> final(self)@.cells[i] == (ScreenChar {
                    ascii: BLANK,
                    color: encode(old(self)@.colors.foreground, background),
                }),
    {
        proof {
            use_type_invariant(&*self);
        }
        let fill = ScreenChar { ascii: BLANK, color: encode(self.colors.foreground, background) };
        self.cells = [fill; CELLS];
        self.row = 0;
        self.col = 0;
        assert(self@.cells =~= old(self)@.cleared(background).cells);
    }

    /// Makes `scheme` the colours of the characters written from now on.
    /// No cell changes.
    pub fn set_colors(&mut self, scheme: ColorScheme)
        ensures
            final(self)@ == old(self)@.with_colors(scheme),
            final(self)@.valid(),
    {
        proof {
            use_type_invariant(&*self);
        }
        self.colors = scheme;
    }

    /// Moves the cursor to the start of the next row; from the last row it
    /// goes back to the first. No cell changes.
    pub fn new_line(&mut self)
        ensures
            final(self)@ == old(self)@.new_line(),
            final(self)@.valid(),
    {
        proof {
            use_type_invariant(&*self);
        }
        self.col = 0;
        self.row = if self.row + 1 < ROWS {
            self.row + 1
        } else {
            0
        };
    }

    /// Writes one byte. A newline moves the cursor to the start of the next
    /// row. Any other byte is stored under the cursor in the current
    /// colours; the cursor then moves one column on, or from the last column
    /// to the start of the next row.
    pub fn write_byte(&mut self, byte: u8)
        ensures
            final(self)@ == old(self)@.put(byte),
            final(self)@.valid(),
    {
        proof {
            use_type_invariant(&*self);
        }
        if byte == NEWLINE {
            self.new_line();
        } else {
            let at: usize = self.row * COLS + self.col;
            self.cells[at] = ScreenChar { ascii: byte, color: self.colors.attribute() };
            if self.col + 1 < COLS {
                self.col = self.col + 1;
            } else {
                self.new_line();
            }
        }
    }

    /// Writes the bytes one after the other, as `write_byte` does.
    pub fn write(&mut self, bytes: &[u8])
        ensures
            final(self)@ == old(self)@.write(bytes@),
            final(self)@.valid(),
    {
        proof {
            use_type_invariant(&*self);
        }
        let mut done: usize = 0;
        while done < bytes.len()
            invariant
                done <= bytes.len(),
                self@ == old(self)@.write(bytes@.take(done as int)),
                self@.valid(),
            decreases bytes.len() - done,
        {
            proof {
                assert(bytes@.take(done + 1).drop_last() =~= bytes@.take(done as int));
            }
            self.write_byte(bytes[done]);
            done = done + 1;
        }
        proof {
            assert(bytes@.take(done as int) =~= bytes@);
        }
    }

    /// The colours that the next character gets.
    pub fn colors(&self) -> (scheme: ColorScheme)
        ensures
            scheme == self@.colors,
    {
        self.colors
    }

    /// The cursor: the row and the column of the next character.
    pub fn position(&self) -> (at: (usize, usize))
        ensures
            at.0 == self@.row,
            at.1 == self@.col,
            self@.valid(),
    {
        proof {
            use_type_invariant(self);
        }
        (self.row, self.col)
    }

    /// The whole buffer, row after row.
    pub fn cells(&self) -> (cells: &[ScreenChar; CELLS])
        ensures
            cells@ == self@.cells,
            self@.valid(),
    {
        proof {
            use_type_invariant(self);
        }
        &self.cells
    }

    /// The cell at `row`, `col`, or `None` where the buffer has no such cell.
    pub fn cell(&self, row: usize, col: usize) -> (found: Option<ScreenChar>)
        ensures
            self@.valid(),
            found == if row < ROWS && col < COLS {
                Some(self@.cells[ScreenView::index_of(row as int, col as int)])
            } else {
                None
            },
    {
        proof {
            use_type_invariant(self);
        }
        if row < ROWS && col < COLS {
            Some(self.cells[row * COLS + col])
        } else {
            None
        }
    }
}

} // verus!
