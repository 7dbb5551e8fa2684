//! The writer: the cursor, the attribute and the cells of the display, and
//! the operations that turn bytes into cell writes, wraps and scrolls.

use vstd::prelude::*;
use vstd::string::StringSliceAdditionalSpecFns;
use crate::color::{attribute, Color, Style};
use crate::screen::{
    cell_index, cell_value, low_byte, Screen, BLANK_CELL, NEWLINE, SPACE, VGA_CELLS, VGA_HEIGHT,
    VGA_WIDTH,
};

verus! {

/// The attribute of a new writer: white on black.
pub open spec fn default_attribute() -> u8 {
    attribute(Color::White, Color::Black)
}

/// The console writer. It holds the cursor, the attribute that new
/// characters get, and the cells of the display in row-major order.
///
/// The cursor is on the grid at all times: it wraps, and the display
/// scrolls, before a column or a row past the last one is ever reached, so
/// no write lands outside the display.
pub struct Writer {
    row: u8,
    col: u8,
    style: Style,
    cells: [u16; VGA_CELLS],
}

impl View for Writer {
    type V = Screen;

    /// The console state that this writer holds.
    closed spec fn view(&self) -> Screen {
        Screen {
            row: self.row as int,
            col: self.col as int,
            style: self.style@,
            cells: self.cells@,
        }
    }
}

impl Writer {
    /// The cursor of a writer is always on the grid.
    #[verifier::type_invariant]
    spec fn cursor_on_grid(self) -> bool {
        self.row < VGA_HEIGHT && self.col < VGA_WIDTH
    }

    /// A writer in the default attribute, white on black, over a blank
    /// display, with the cursor in the top left corner.
    pub fn new() -> (writer: Writer)
        ensures
            writer@ == Screen::blank(default_attribute()),
            writer@.wf(),
    {
        let writer = Writer {
            row: 0,
            col: 0,
            style: Style::new(Color::White, Color::Black),
            cells: [BLANK_CELL;VGA_CELLS],
        };
        assert(writer@.cells =~= Screen::blank(default_attribute()).cells);
        writer
    }

    /// Puts the cursor at `(row, col)`, which must be on the grid.
    pub fn set_pos(&mut self, row: u8, col: u8)
        requires
            row < VGA_HEIGHT,
            col < VGA_WIDTH,
        ensures
            final(self)@ == old(self)@.at(row as int, col as int),
            final(self)@.wf(),
    {
        proof {
            use_type_invariant(&*self);
        }
        self.row = row;
        self.col = col;
    }

    /// The number of cells of the display.
    pub fn get_size(&self) -> (size: u16)
        ensures
            size == VGA_WIDTH * VGA_HEIGHT,
            size == self@.cells.len(),
    {
        (VGA_WIDTH as u16) * (VGA_HEIGHT as u16)
    }

    /// The index of the cell at `(row, col)` in the row-major grid.
    pub fn calc_index(row: u8, col: u8) -> (index: isize)
        ensures
            index == cell_index(row as int, col as int),
    {
        let width: isize = VGA_WIDTH as isize;
        (row as isize) * width + (col as isize)
    }

    /// The index of the cell under the cursor.
    pub fn get_index(&self) -> (index: isize)
        ensures
            index == self@.index(),
            0 <= index < VGA_CELLS,
    {
        proof {
            use_type_invariant(self);
        }
        Writer::calc_index(self.row, self.col)
    }

    /// Moves every row up by one, dropping the top row, and blanks the
    /// bottom row. The cursor stays where it is.
    pub fn scroll(&mut self)
        ensures
            final(self)@ == old(self)@.scroll(),
            final(self)@.wf(),
    {
        proof {
            use_type_invariant(&*self);
        }
        let ghost before = self.cells@;
        let mut y: u8 = 1;
        while y < VGA_HEIGHT
            invariant
                1 <= y <= VGA_HEIGHT,
                self.row == old(self).row,
                self.col == old(self).col,
                self.style == old(self).style,
                self.row < VGA_HEIGHT,
                self.col < VGA_WIDTH,
                before.len() == VGA_CELLS,
                forall|i: int| 0 <= i < (y - 1) * VGA_WIDTH ==> self.cells@[i] == before[i + VGA_WIDTH],
                forall|i: int| (y - 1) * VGA_WIDTH <= i < VGA_CELLS ==> self.cells@[i] == before[i],
            decreases VGA_HEIGHT - y,
        {
            let mut x: u8 = 0;
            while x < VGA_WIDTH
                invariant
                    1 <= y < VGA_HEIGHT,
                    x <= VGA_WIDTH,
                    self.row == old(self).row,
                    self.col == old(self).col,
                    self.style == old(self).style,
                    self.row < VGA_HEIGHT,
                    self.col < VGA_WIDTH,
                    before.len() == VGA_CELLS,
                    forall|i: int|
                        0 <= i < (y - 1) * VGA_WIDTH + x ==> self.cells@[i] == before[i + VGA_WIDTH],
                    forall|i: int|
                        (y - 1) * VGA_WIDTH + x <= i < VGA_CELLS ==> self.cells@[i] == before[i],
                decreases VGA_WIDTH - x,
            {
                let from: usize = Writer::calc_index(y, x) as usize;
                let to: usize = Writer::calc_index(y - 1, x) as usize;
                self.cells[to] = self.cells[from];
                x += 1;
            }
            y += 1;
        }
        let mut i: usize = VGA_CELLS - VGA_WIDTH as usize;
        while i < VGA_CELLS
            invariant
                VGA_CELLS - VGA_WIDTH <= i <= VGA_CELLS,
                self.row == old(self).row,
                self.col == old(self).col,
                self.style == old(self).style,
                self.row < VGA_HEIGHT,
                self.col < VGA_WIDTH,
                before.len() == VGA_CELLS,
                forall|k: int|
                    0 <= k < VGA_CELLS - VGA_WIDTH ==> self.cells@[k] == before[k + VGA_WIDTH],
                forall|k: int| VGA_CELLS - VGA_WIDTH <= k < i ==> self.cells@[k] == BLANK_CELL,
            decreases VGA_CELLS - i,
        {
            self.cells[i] = BLANK_CELL;
            i += 1;
        }
        assert(self@.cells =~= old(self)@.scroll().cells);
    }

    /// Starts a new line: the cursor goes to the first column of the next
    /// row. On the last row the display scrolls instead.
    pub fn newline(&mut self)
        ensures
            final(self)@ == old(self)@.newline(),
            final(self)@.wf(),
            final(self)@.col == 0,
    {
        proof {
            use_type_invariant(&*self);
        }
        self.col = 0;
        if self.row >= VGA_HEIGHT - 1 {
            self.scroll();
        } else {
            self.row += 1;
        }
    }

    /// Moves the cursor one cell on. Past the last column it wraps to the
    /// start of the next row, scrolling on the last row.
    pub fn next(&mut self)
        ensures
            final(self)@ == old(self)@.next(),
            final(self)@.wf(),
    {
        proof {
            use_type_invariant(&*self);
        }
        if self.col >= VGA_WIDTH - 1 {
            self.newline();
        } else {
            self.col += 1;
        }
    }

    /// Writes one byte. A space moves the cursor on and leaves the cell
    /// under it as it was. A newline starts a new line. Any other byte is
    /// painted under the cursor in the writer's attribute, and the cursor
    /// moves on.
    pub fn write_byte(&mut self, c: u8)
        ensures
            final(self)@ == old(self)@.write_byte(c),
            final(self)@.wf(),
            c == NEWLINE ==> final(self)@.col == 0,
    {
        if c == SPACE {
            self.next();
        } else if c == NEWLINE {
            self.newline();
        } else {
            proof {
                use_type_invariant(&*self);
            }
            let index: usize = self.get_index() as usize;
            let style: u8 = self.style.bits();
            assert((c as u16) | ((style as u16) << 8) == 256 * style + c) by (bit_vector);
            self.cells[index] = (c as u16) | ((style as u16) << 8);
            self.next();
        }
    }

    /// Writes the bytes in order.
    pub fn write_bytes(&mut self, bytes: &[u8])
        ensures
            final(self)@ == old(self)@.write_bytes(bytes@),
            final(self)@.wf(),
    {
        proof {
            use_type_invariant(&*self);
        }
        let mut i: usize = 0;
        while i < bytes.len()
            invariant
                i <= bytes.len(),
                self@ == old(self)@.write_bytes(bytes@.take(i as int)),
                self@.wf(),
            decreases bytes.len() - i,
        {
            self.write_byte(bytes[i]);
            assert(bytes@.take(i + 1).drop_last() =~= bytes@.take(i as int));
            i += 1;
        }
        assert(bytes@.take(i as int) =~= bytes@);
    }

    /// Writes the bytes of `s` in order.
    pub fn write_str(&mut self, s: &str)
        ensures
            final(self)@ == old(self)@.write_bytes(s.spec_bytes()),
            final(self)@.wf(),
    {
        self.write_bytes(s.as_bytes());
    }

    /// Writes the low byte of the character's code.
    pub fn write_char(&mut self, c: char)
        ensures
            final(self)@ == old(self)@.write_byte(low_byte(c)),
            final(self)@.wf(),
    {
        let code: u32 = c as u32;
        assert(code & 0xff == code % 256) by (bit_vector);
        self.write_byte((code & 0xff) as u8);
    }

    /// A writer in the same state as this one.
    pub fn copy(&self) -> (copy: Writer)
        ensures
            copy@ == self@,
            copy@.wf(),
    {
        proof {
            use_type_invariant(self);
        }
        Writer { row: self.row, col: self.col, style: self.style, cells: self.cells }
    }

    /// The row of the cursor.
    pub fn row(&self) -> (row: u8)
        ensures
            row == self@.row,
            row < VGA_HEIGHT,
    {
        proof {
            use_type_invariant(self);
        }
        self.row
    }

    /// The column of the cursor.
    pub fn col(&self) -> (col: u8)
        ensures
            col == self@.col,
            col < VGA_WIDTH,
    {
        proof {
            use_type_invariant(self);
        }
        self.col
    }

    /// The attribute that new characters get.
    pub fn style(&self) -> (style: Style)
        ensures
            style@ == self@.style,
    {
        self.style
    }

    /// The cell at `(row, col)`, or `None` where that is off the grid.
    pub fn cell(&self, row: u8, col: u8) -> (cell: Option<u16>)
        ensures
            cell == if row < VGA_HEIGHT && col < VGA_WIDTH {
                Some(self@.cell(row as int, col as int))
            } else {
                None
            },
    {
        if row < VGA_HEIGHT && col < VGA_WIDTH {
            let index: usize = Writer::calc_index(row, col) as usize;
            Some(self.cells[index])
        } else {
            None
        }
    }
}

/// Blanks the whole display and puts the cursor in the top left corner. The
/// attribute stays.
pub fn clear_screen(writer: &mut Writer)
    ensures
        final(writer)@ == old(writer)@.cleared(),
        final(writer)@.wf(),
        final(writer)@.row == 0,
        final(writer)@.col == 0,
        forall|i: int| 0 <= i < VGA_CELLS ==> final(writer)@.cells[i] == BLANK_CELL,
{
    writer.set_pos(0, 0);
    let size: usize = writer.get_size() as usize;
    let mut i: usize = 0;
    while i < size
        invariant
            i <= size == VGA_CELLS,
            writer.row == 0,
            writer.col == 0,
            writer.style@ == old(writer).style@,
            forall|k: int| 0 <= k < i ==> writer.cells@[k] == BLANK_CELL,
        decreases size - i,
    {
        writer.cells[i] = BLANK_CELL;
        i += 1;
    }
    assert(writer@.cells =~= old(writer)@.cleared().cells);
}

/// Reports an error on a display of its own: a fresh writer over a blank
/// display, with `message` written from the top left corner. It shares
/// nothing with any other writer, so it can be used where the shared one
/// cannot be trusted or reached.
pub fn print_error(message: &str) -> (writer: Writer)
    ensures
        writer@ == Screen::blank(default_attribute()).write_bytes(message.spec_bytes()),
        writer@.wf(),
{
    let mut writer = Writer::new();
    writer.write_str(message);
    writer
}

} // verus!
