//! What holds of the console model for every state and every input.

use vstd::prelude::*;
use crate::color::{attribute, Color};
use crate::screen::{
    blank_cells, cell_value, scrolled_cells, Screen, BLANK_CELL, NEWLINE, SPACE, VGA_CELLS,
    VGA_HEIGHT, VGA_WIDTH,
};

verus! {

/// The byte is painted when written: it is neither a space nor a newline.
pub open spec fn is_visible(c: u8) -> bool {
    c != SPACE && c != NEWLINE
}

/// An attribute holds the foreground colour in bits 0 to 3 and the
/// background colour in bits 4 to 7.
pub proof fn lemma_attribute_nibbles(foreground: Color, background: Color)
    ensures
        attribute(foreground, background) % 16 == foreground.number(),
        attribute(foreground, background) / 16 == background.number(),
        attribute(foreground, background) == foreground.number() | (background.number() << 4),
{
    let low = foreground.number();
    let high = background.number();
    assert(low | (high << 4) == low + 16 * high) by (bit_vector)
        requires
            low < 16,
            high < 16,
    ;
}

/// A cell holds the character code in its low byte and the attribute in its
/// high byte, and nothing else.
pub proof fn lemma_cell_value_halves(style: u8, code: u8)
    ensures
        cell_value(style, code) % 256 == code,
        cell_value(style, code) / 256 == style,
        cell_value(style, code) == (code as u16) | ((style as u16) << 8),
{
    assert((code as u16) | ((style as u16) << 8) == 256 * style + code) by (bit_vector);
}

/// Writing a byte keeps the cursor on the grid and the grid at its size.
pub proof fn lemma_write_byte_keeps_wf(s: Screen, c: u8)
    requires
        s.wf(),
    ensures
        s.write_byte(c).wf(),
        s.write_byte(c).style == s.style,
{
}

/// Writing any bytes keeps the cursor on the grid and the grid at its size.
pub proof fn lemma_write_bytes_keeps_wf(s: Screen, bytes: Seq<u8>)
    requires
        s.wf(),
    ensures
        s.write_bytes(bytes).wf(),
        s.write_bytes(bytes).style == s.style,
    decreases bytes.len(),
{
    if bytes.len() > 0 {
        lemma_write_bytes_keeps_wf(s, bytes.drop_last());
        lemma_write_byte_keeps_wf(s.write_bytes(bytes.drop_last()), bytes.last());
    }
}

/// Writing bytes one after the other is the same as writing them in two
/// runs.
pub proof fn lemma_write_bytes_concat(s: Screen, first: Seq<u8>, second: Seq<u8>)
    ensures
        s.write_bytes(first + second) == s.write_bytes(first).write_bytes(second),
    decreases second.len(),
{
    if second.len() > 0 {
        assert((first + second).drop_last() =~= first + second.drop_last());
        lemma_write_bytes_concat(s, first, second.drop_last());
    }
}

/// Every byte but a newline takes one column, a space as much as a painted
/// character: after bytes without a newline the cursor's column is where it
/// started plus the number of bytes, wrapped at the width of the display.
pub proof fn lemma_column_advances_by_length(s: Screen, bytes: Seq<u8>)
    requires
        s.wf(),
        forall|i: int| 0 <= i < bytes.len() ==> bytes[i] != NEWLINE,
    ensures
        s.write_bytes(bytes).col == (s.col + bytes.len()) % (VGA_WIDTH as int),
    decreases bytes.len(),
{
    if bytes.len() > 0 {
        lemma_column_advances_by_length(s, bytes.drop_last());
        lemma_write_bytes_keeps_wf(s, bytes.drop_last());
    }
}

/// A newline puts the cursor in the first column, wherever it was.
pub proof fn lemma_newline_resets_column(s: Screen)
    ensures
        s.write_byte(NEWLINE).col == 0,
        s.newline().col == 0,
{
}

/// Painted bytes that fit in the rest of the row land side by side from the
/// cursor on, each in the current attribute; the cursor ends behind the last
/// of them, in the same row, and no other cell changes.
pub proof fn lemma_write_within_row(s: Screen, bytes: Seq<u8>)
    requires
        s.wf(),
        s.col + bytes.len() < VGA_WIDTH,
        forall|i: int| 0 <= i < bytes.len() ==> is_visible(bytes[i]),
    ensures
        s.write_bytes(bytes).wf(),
        s.write_bytes(bytes).row == s.row,
        s.write_bytes(bytes).col == s.col + bytes.len(),
        s.write_bytes(bytes).style == s.style,
        forall|j: int|
            0 <= j < bytes.len() ==> #[trigger] s.write_bytes(bytes).cells[s.index() + j]
                == cell_value(s.style, bytes[j]),
        forall|i: int|
            0 <= i < VGA_CELLS && !(s.index() <= i < s.index() + bytes.len())
                ==> #[trigger] s.write_bytes(bytes).cells[i] == s.cells[i],
    decreases bytes.len(),
{
    if bytes.len() > 0 {
        lemma_write_within_row(s, bytes.drop_last());
    }
}

/// A full row of painted bytes written from the first column fills that row
/// from left to right with the bytes in order, each in the current
/// attribute. The cursor then wraps: below the last row it goes to the start
/// of the next row and the filled row stays where it is; on the last row the
/// display scrolls, so the filled row is then the one above the cursor.
pub proof fn lemma_full_row_is_filled(s: Screen, bytes: Seq<u8>)
    requires
        s.wf(),
        s.col == 0,
        bytes.len() == VGA_WIDTH,
        forall|i: int| 0 <= i < bytes.len() ==> is_visible(bytes[i]),
    ensures
        ({
            let after = s.write_bytes(bytes);
            let filled = if s.row + 1 < VGA_HEIGHT {
                s.row
            } else {
                VGA_HEIGHT - 2
            };
            &&& after.wf()
            &&& after.col == 0
            &&& after.row == filled + 1
            &&& after.style == s.style
            &&& forall|j: int|
                0 <= j < VGA_WIDTH ==> #[trigger] after.cell(filled, j) == cell_value(
                    s.style,
                    bytes[j],
                )
        }),
{
    // All bytes but the last stay within the row; the last one is painted in
    // the last column, and only then does the cursor wrap.
    lemma_write_within_row(s, bytes.drop_last());
    let painted = s.write_bytes(bytes.drop_last()).put(bytes.last());
    let after = s.write_bytes(bytes);
    let filled = if s.row + 1 < VGA_HEIGHT {
        s.row
    } else {
        VGA_HEIGHT - 2
    };
    assert forall|j: int| 0 <= j < VGA_WIDTH implies #[trigger] after.cell(filled, j)
        == cell_value(s.style, bytes[j]) by {
        assert(painted.cells[s.index() + j] == cell_value(s.style, bytes[j]));
    }
}

/// Scrolling a display that shows nothing leaves it as it is.
pub proof fn lemma_scroll_of_blank_is_blank(s: Screen)
    requires
        s.cells == blank_cells(),
    ensures
        s.scroll() == s,
        scrolled_cells(blank_cells()) == blank_cells(),
{
}

/// Scrolling keeps the cursor and the attribute, moves each row but the top
/// one up by one, and leaves the bottom row blank.
pub proof fn lemma_scroll_moves_rows_up(s: Screen, row: int, col: int)
    requires
        s.wf(),
        0 <= row < VGA_HEIGHT,
        0 <= col < VGA_WIDTH,
    ensures
        s.scroll().wf(),
        s.scroll().row == s.row,
        s.scroll().col == s.col,
        s.scroll().style == s.style,
        row + 1 < VGA_HEIGHT ==> s.scroll().cell(row, col) == s.cell(row + 1, col),
        row + 1 == VGA_HEIGHT ==> s.scroll().cell(row, col) == BLANK_CELL,
{
}

/// A cleared display shows nothing, and its cursor is in the top left
/// corner.
pub proof fn lemma_cleared_is_blank(s: Screen)
    ensures
        s.cleared().wf(),
        s.cleared().row == 0,
        s.cleared().col == 0,
        forall|i: int| 0 <= i < VGA_CELLS ==> #[trigger] s.cleared().cells[i] == BLANK_CELL,
{
}

/// A painted byte lands under the cursor in the current attribute, and the
/// cursor moves on by one cell. Unless that scrolls the display, no other
/// cell changes; if it does, the byte is then at the end of the row above
/// the last.
pub proof fn lemma_painted_byte_lands_under_cursor(s: Screen, c: u8)
    requires
        s.wf(),
        is_visible(c),
    ensures
        s.write_byte(c) == s.put(c).next(),
        s.col + 1 < VGA_WIDTH ==> s.write_byte(c).row == s.row && s.write_byte(c).col == s.col + 1,
        s.col + 1 == VGA_WIDTH && s.row + 1 < VGA_HEIGHT ==> s.write_byte(c).row == s.row + 1
            && s.write_byte(c).col == 0,
        s.col + 1 == VGA_WIDTH && s.row + 1 == VGA_HEIGHT ==> s.write_byte(c).row == s.row
            && s.write_byte(c).col == 0,
        s.col + 1 < VGA_WIDTH || s.row + 1 < VGA_HEIGHT ==> s.write_byte(c).cells
            == s.cells.update(s.index(), cell_value(s.style, c)),
        s.col + 1 == VGA_WIDTH && s.row + 1 == VGA_HEIGHT ==> s.write_byte(c).cell(
            VGA_HEIGHT - 2,
            VGA_WIDTH - 1,
        ) == cell_value(s.style, c),
{
}

/// A space moves the cursor as a painted character does, and changes no
/// cell unless the display scrolls.
pub proof fn lemma_space_skips_cell(s: Screen)
    requires
        s.wf(),
    ensures
        s.write_byte(SPACE) == s.next(),
        s.col + 1 < VGA_WIDTH || s.row + 1 < VGA_HEIGHT ==> s.write_byte(SPACE).cells == s.cells,
{
}

} // verus!
