//! The mathematical model of the display: what a screen is, and what each
//! operation makes of it.

use vstd::prelude::*;
use crate::color::{encode, Color, ColorScheme};

verus! {

/// Number of character rows.
pub const ROWS: usize = 25;

/// Number of character columns.
pub const COLS: usize = 80;

/// Number of cells in the buffer, row after row.
pub const CELLS: usize = ROWS * COLS;

/// The character that fills a cleared screen: an ASCII space.
pub const BLANK: u8 = 0x20;

/// The control byte that moves the cursor to the start of the next row.
pub const NEWLINE: u8 = 0x0A;

/// One cell of the buffer in the hardware's two-byte format: the character
/// and the attribute byte that colours it.
#[derive(Clone, Copy, PartialEq, Eq, Structural, Debug)]
pub struct ScreenChar {
    pub ascii: u8,
    pub color: u8,
}

/// A screen as a mathematical value: the cells row after row, the colours
/// that the next character gets, and the cursor.
pub struct ScreenView {
    pub cells: Seq<ScreenChar>,
    pub colors: ColorScheme,
    pub row: int,
    pub col: int,
}

impl ScreenView {
    /// The buffer has `ROWS * COLS` cells and the cursor lies on one of them.
    pub open spec fn valid(self) -> bool {
        &&& self.cells.len() == CELLS
        &&& 0 <= self.row < ROWS
        &&& 0 <= self.col < COLS
    }

    /// Index in `cells` of the cell at `row`, `col`.
    pub open spec fn index_of(row: int, col: int) -> int {
        row * COLS + col
    }

    /// Index in `cells` of the cell under the cursor.
    pub open spec fn cursor(self) -> int {
        Self::index_of(self.row, self.col)
    }

    /// The cell that a character written now would get.
    pub open spec fn stamp(self, byte: u8) -> ScreenChar {
        ScreenChar { ascii: byte, color: self.colors.attribute() }
    }

    /// The row below the cursor's; below the last row comes the first again.
    pub open spec fn next_row(self) -> int {
        if self.row + 1 < ROWS {
            self.row + 1
        } else {
            0
        }
    }

    /// A blank screen in the given colours, the cursor in the top left corner.
    pub open spec fn blank(colors: ColorScheme) -> ScreenView {
        ScreenView {
            cells: Seq::new(
                CELLS as nat,
                |i: int| ScreenChar { ascii: BLANK, color: colors.attribute() },
            ),
            colors,
            row: 0,
            col: 0,
        }
    }

    /// The screen after `clear`: every cell a space on `background`, in the
    /// current foreground colour; the cursor in the top left corner; the
    /// current colours as they were.
    pub open spec fn cleared(self, background: Color) -> ScreenView {
        ScreenView {
            cells: Seq::new(
                CELLS as nat,
                |i: int|
                    ScreenChar { ascii: BLANK, color: encode(self.colors.foreground, background) },
            ),
            colors: self.colors,
            row: 0,
            col: 0,
        }
    }

    /// The screen after `set_colors`: only the current colours change.
    pub open spec fn with_colors(self, scheme: ColorScheme) -> ScreenView {
        ScreenView { colors: scheme, ..self }
    }

    /// The cursor moved to the start of the next row.
    pub open spec fn new_line(self) -> ScreenView {
        ScreenView { row: self.next_row(), col: 0, ..self }
    }

    /// The screen after one byte is written. A newline only moves the
    /// cursor. Any other byte is stored under the cursor in the current
    /// colours, and the cursor moves one column on, or to the start of the
    /// next row from the last column.
    pub open spec fn put(self, byte: u8) -> ScreenView {
        if byte == NEWLINE {
            self.new_line()
        } else {
            let stored = ScreenView {
                cells: self.cells.update(self.cursor(), self.stamp(byte)),
                ..self
            };
            if self.col + 1 < COLS {
                ScreenView { col: self.col + 1, ..stored }
            } else {
                stored.new_line()
            }
        }
    }

    /// The screen after a sequence of bytes is written, first byte first.
    pub open spec fn write(self, bytes: Seq<u8>) -> ScreenView
        decreases bytes.len(),
    {
        if bytes.len() == 0 {
            self
        } else {
            self.write(bytes.drop_last()).put(bytes.last())
        }
    }
}

} // verus!
