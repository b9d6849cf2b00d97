//! What holds of every screen: how writing moves the cursor, which cells it
//! touches, and which colours it uses.

use vstd::prelude::*;
use crate::color::{encode, ColorScheme};
use crate::model::{ScreenChar, ScreenView, CELLS, COLS, NEWLINE, ROWS};

verus! {

/// No byte of `bytes` is a newline.
pub open spec fn no_newline(bytes: Seq<u8>) -> bool {
    forall|k: int| 0 <= k < bytes.len() ==> bytes[k] != NEWLINE
}

/// Every position inside the grid has a cell of its own in the buffer.
pub proof fn positions_have_their_own_cells(row: int, col: int, other_row: int, other_col: int)
    requires
        0 <= row < ROWS,
        0 <= col < COLS,
        0 <= other_row < ROWS,
        0 <= other_col < COLS,
    ensures
        0 <= ScreenView::index_of(row, col) < CELLS,
        ScreenView::index_of(row, col) == ScreenView::index_of(other_row, other_col) ==> row
            == other_row && col == other_col,
{
}

/// Writing one byte keeps a valid screen valid, and never touches the
/// current colours.
pub proof fn put_keeps_valid(v: ScreenView, byte: u8)
    requires
        v.valid(),
    ensures
        v.put(byte).valid(),
        v.put(byte).colors == v.colors,
{
}

/// Writing any bytes keeps a valid screen valid, and never touches the
/// current colours.
pub proof fn write_keeps_valid(v: ScreenView, bytes: Seq<u8>)
    requires
        v.valid(),
    ensures
        v.write(bytes).valid(),
        v.write(bytes).colors == v.colors,
    decreases bytes.len(),
{
    if bytes.len() > 0 {
        write_keeps_valid(v, bytes.drop_last());
        put_keeps_valid(v.write(bytes.drop_last()), bytes.last());
    }
}

/// Writing nothing changes nothing.
pub proof fn write_nothing(v: ScreenView)
    ensures
        v.write(Seq::empty()) == v,
{
}

/// Writing a single byte is one step of the cursor.
pub proof fn write_one(v: ScreenView, byte: u8)
    ensures
        v.write(seq![byte]) == v.put(byte),
{
    let one = seq![byte];
    assert(one.drop_last() =~= Seq::<u8>::empty());
    assert(v.write(one.drop_last()) == v);
}

/// Writing two sequences one after the other is writing them joined.
pub proof fn write_joined(v: ScreenView, first: Seq<u8>, second: Seq<u8>)
    ensures
        v.write(first + second) == v.write(first).write(second),
    decreases second.len(),
{
    if second.len() == 0 {
        assert(first + second =~= first);
    } else {
        write_joined(v, first, second.drop_last());
        assert((first + second).drop_last() =~= first + second.drop_last());
        assert((first + second).last() == second.last());
    }
}

/// A sequence without a newline that ends before the last column stays on
/// the cursor's row: the row is unchanged and the column has advanced by the
/// length of the sequence. The bytes stand from the cursor on, in the current
/// colours, and every other cell is as it was.
pub proof fn write_within_row(v: ScreenView, bytes: Seq<u8>)
    requires
        v.valid(),
        no_newline(bytes),
        v.col + bytes.len() < COLS,
    ensures
        v.write(bytes).valid(),
        v.write(bytes).row == v.row,
        v.write(bytes).col == v.col + bytes.len(),
        v.write(bytes).colors == v.colors,
        forall|k: int|
            0 <= k < bytes.len() ==> v.write(bytes).cells[v.cursor() + k] == v.stamp(bytes[k]),
        forall|i: int|
            0 <= i < CELLS && !(v.cursor() <= i < v.cursor() + bytes.len()) ==> v.write(
                bytes,
            ).cells[i] == v.cells[i],
    decreases bytes.len(),
{
    if bytes.len() > 0 {
        let front = bytes.drop_last();
        write_within_row(v, front);
        let before = v.write(front);
        assert(before.cursor() == v.cursor() + front.len());
        assert(before.stamp(bytes.last()) == v.stamp(bytes.last()));
        assert forall|k: int| 0 <= k < bytes.len() implies v.write(bytes).cells[v.cursor() + k]
            == v.stamp(bytes[k]) by {
            if k < front.len() {
                assert(front[k] == bytes[k]);
            }
        }
    }
}

/// Only such a sequence stays put in this way: if writing `bytes` leaves the
/// row unchanged and the column advanced by their number, then they hold no
/// newline and end before the last column.
pub proof fn write_within_row_only(v: ScreenView, bytes: Seq<u8>)
    requires
        v.valid(),
        v.write(bytes).row == v.row,
        v.write(bytes).col == v.col + bytes.len(),
    ensures
        no_newline(bytes),
        v.col + bytes.len() < COLS,
    decreases bytes.len(),
{
    write_keeps_valid(v, bytes);
    if bytes.len() > 0 {
        let front = bytes.drop_last();
        let before = v.write(front);
        write_keeps_valid(v, front);
        column_bound(v, front);
        if bytes.last() != NEWLINE && before.col + 1 < COLS {
            write_within_row_only(v, front);
            assert forall|k: int| 0 <= k < bytes.len() implies bytes[k] != NEWLINE by {
                if k < front.len() {
                    assert(front[k] == bytes[k]);
                }
            }
        }
    }
}

/// The column never runs ahead of the bytes written.
pub proof fn column_bound(v: ScreenView, bytes: Seq<u8>)
    requires
        v.valid(),
    ensures
        v.write(bytes).col <= v.col + bytes.len(),
    decreases bytes.len(),
{
    if bytes.len() > 0 {
        column_bound(v, bytes.drop_last());
        write_keeps_valid(v, bytes.drop_last());
    }
}

/// A byte other than a newline is stored under the cursor, and the cursor
/// moves one cell on in the buffer, from the last cell back to the first.
pub proof fn put_advances_cursor(v: ScreenView, byte: u8)
    requires
        v.valid(),
        byte != NEWLINE,
    ensures
        0 <= v.cursor() < CELLS,
        v.put(byte).cells == v.cells.update(v.cursor(), v.stamp(byte)),
        v.put(byte).cursor() == (v.cursor() + 1) % (CELLS as int),
{
}

/// Cell `i` is one of the `count` cells that follow cell `start` in the
/// buffer, the first cell coming after the last.
pub open spec fn reached(start: int, count: int, i: int) -> bool {
    count >= CELLS || (i - start) % (CELLS as int) < count
}

/// Bytes without a newline fill the buffer cell after cell from the cursor
/// on, running from the end of a row into the next row and from the last
/// cell into the first. The cursor ends as many cells on as bytes were
/// written; each of the last `CELLS` bytes stands in the cell that many
/// places behind the start, in the current colours; every cell that no byte
/// reached is as it was.
pub proof fn write_fills_in_order(v: ScreenView, bytes: Seq<u8>)
    requires
        v.valid(),
        no_newline(bytes),
    ensures
        v.write(bytes).valid(),
        v.write(bytes).colors == v.colors,
        v.write(bytes).cursor() == (v.cursor() + bytes.len()) % (CELLS as int),
        forall|k: int|
            0 <= k < bytes.len() && bytes.len() - CELLS <= k ==> v.write(bytes).cells[(v.cursor()
                + k) % (CELLS as int)] == v.stamp(bytes[k]),
        forall|i: int|
            0 <= i < CELLS && !reached(v.cursor(), bytes.len() as int, i) ==> v.write(
                bytes,
            ).cells[i] == v.cells[i],
    decreases bytes.len(),
{
    if bytes.len() > 0 {
        let front = bytes.drop_last();
        let before = v.write(front);
        let after = v.write(bytes);
        let start = v.cursor();
        write_fills_in_order(v, front);
        put_advances_cursor(before, bytes.last());
        assert(before.stamp(bytes.last()) == v.stamp(bytes.last()));
        assert(after.cells == before.cells.update(before.cursor(), v.stamp(bytes.last())));
        step_around(start + front.len());
        assert forall|k: int| 0 <= k < bytes.len() && bytes.len() - CELLS <= k implies after.cells[(
        start + k) % (CELLS as int)] == v.stamp(bytes[k]) by {
            if k < front.len() {
                assert(front[k] == bytes[k]);
                apart_around(start + k, front.len() - k);
            }
        }
        assert forall|i: int|
            0 <= i < CELLS && !reached(start, bytes.len() as int, i) implies after.cells[i]
            == v.cells[i] by {
            back_around(start, front.len() as int);
        }
    }
}

/// One cell on from `x` places around the buffer is `x + 1` places around.
proof fn step_around(x: int)
    requires
        0 <= x,
    ensures
        (x % (CELLS as int) + 1) % (CELLS as int) == (x + 1) % (CELLS as int),
{
    assert(CELLS == 2000);
}

/// Two places less than a buffer apart are different cells.
proof fn apart_around(x: int, gap: int)
    requires
        0 <= x,
        0 < gap < CELLS,
    ensures
        x % (CELLS as int) != (x + gap) % (CELLS as int),
{
    assert(CELLS == 2000);
}

/// The cell `count` places behind `start` is `count` places behind it.
proof fn back_around(start: int, count: int)
    requires
        0 <= start < CELLS,
        0 <= count < CELLS,
    ensures
        ((start + count) % (CELLS as int) - start) % (CELLS as int) == count,
{
    assert(CELLS == 2000);
}

/// A character written in the last column is stored there, and the cursor
/// goes to column 0 of the next row, which is where the character after it
/// lands. Below the last row the next row is the first.
pub proof fn last_column_wraps(v: ScreenView, byte: u8, next: u8)
    requires
        v.valid(),
        v.col == COLS - 1,
        byte != NEWLINE,
        next != NEWLINE,
    ensures
        v.put(byte).cells[v.cursor()] == v.stamp(byte),
        v.put(byte).col == 0,
        v.put(byte).row == if v.row == ROWS - 1 {
            0
        } else {
            v.row + 1
        },
        v.write(seq![byte, next]) == v.put(byte).put(next),
        v.write(seq![byte, next]).cells[ScreenView::index_of(v.put(byte).row, 0)] == v.stamp(next),
        v.write(seq![byte, next]).cells[v.cursor()] == v.stamp(byte),
        v.write(seq![byte, next]).row == v.put(byte).row,
        v.write(seq![byte, next]).col == 1,
{
    let both = seq![byte, next];
    assert(both.drop_last() =~= seq![byte]);
    write_one(v, byte);
}

/// A newline moves the cursor to column 0 of the next row and changes no
/// cell. Below the last row the next row is the first.
pub proof fn newline_moves_down(v: ScreenView)
    requires
        v.valid(),
    ensures
        v.put(NEWLINE).cells == v.cells,
        v.put(NEWLINE).col == 0,
        v.put(NEWLINE).row == if v.row == ROWS - 1 {
            0
        } else {
            v.row + 1
        },
{
}

/// A character written right after the colours are set is stored under the
/// cursor with the attribute byte of the new colours.
pub proof fn colors_reach_next_write(v: ScreenView, scheme: ColorScheme, byte: u8)
    requires
        v.valid(),
        byte != NEWLINE,
    ensures
        v.with_colors(scheme).write(seq![byte]).cells[v.cursor()] == (ScreenChar {
            ascii: byte,
            color: encode(scheme.foreground, scheme.background),
        }),
        v.with_colors(scheme).cells == v.cells,
{
    write_one(v.with_colors(scheme), byte);
}

} // verus!
