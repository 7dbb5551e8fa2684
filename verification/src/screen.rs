//! The mathematical model of the console: what the display shows and where
//! the cursor stands, and how each operation changes them.

use vstd::prelude::*;

verus! {

/// Columns of the display.
pub const VGA_WIDTH: u8 = 80;

/// Rows of the display.
pub const VGA_HEIGHT: u8 = 25;

/// Cells of the display.
pub const VGA_CELLS: usize = 2000;

/// A cell that shows nothing: a space, black on black.
pub const BLANK_CELL: u16 = 0x0020;

/// The byte that only moves the cursor on.
pub const SPACE: u8 = 0x20;

/// The byte that starts a new line.
pub const NEWLINE: u8 = 0x0a;

/// The value of a cell: the character code in the low byte, the attribute in
/// the high byte.
pub open spec fn cell_value(style: u8, code: u8) -> u16 {
    (256 * style + code) as u16
}

/// The byte that a character is written as: the low eight bits of its
/// code.
pub open spec fn low_byte(c: char) -> u8 {
    (c as u32 % 256) as u8
}

/// Where the cell at `(row, col)` lies in the row-major grid.
pub open spec fn cell_index(row: int, col: int) -> int {
    row * VGA_WIDTH as int + col
}

/// A grid in which every cell is blank.
pub open spec fn blank_cells() -> Seq<u16> {
    Seq::new(VGA_CELLS as nat, |i: int| BLANK_CELL)
}

/// The grid moved up by one row: the top row is lost, every other row
/// takes the place of the one above it, and the bottom row is blank.
pub open spec fn scrolled_cells(cells: Seq<u16>) -> Seq<u16> {
    Seq::new(
        VGA_CELLS as nat,
        |i: int|
            if i < VGA_CELLS - VGA_WIDTH {
                cells[i + VGA_WIDTH]
            } else {
                BLANK_CELL
            },
    )
}

/// The state of the console: the cursor, the attribute that new characters
/// get, and the cells of the display in row-major order.
pub struct Screen {
    pub row: int,
    pub col: int,
    pub style: u8,
    pub cells: Seq<u16>,
}

impl Screen {
    /// The cursor is on the grid and the grid has its full size.
    pub open spec fn wf(self) -> bool {
        &&& 0 <= self.row < VGA_HEIGHT
        &&& 0 <= self.col < VGA_WIDTH
        &&& self.cells.len() == VGA_CELLS
    }

    /// A blank display with the cursor in the top left corner.
    pub open spec fn blank(style: u8) -> Screen {
        Screen { row: 0, col: 0, style, cells: blank_cells() }
    }

    /// The index of the cell under the cursor.
    pub open spec fn index(self) -> int {
        cell_index(self.row, self.col)
    }

    /// The cell at `(row, col)`.
    pub open spec fn cell(self, row: int, col: int) -> u16 {
        self.cells[cell_index(row, col)]
    }

    /// The cursor moved to `(row, col)`.
    pub open spec fn at(self, row: int, col: int) -> Screen {
        Screen { row, col, ..self }
    }

    /// The display scrolled by one row; the cursor stays.
    pub open spec fn scroll(self) -> Screen {
        Screen { cells: scrolled_cells(self.cells), ..self }
    }

    /// The cursor at the start of the next row; on the last row the display
    /// scrolls instead and the cursor stays on that row.
    pub open spec fn newline(self) -> Screen {
        if self.row + 1 < VGA_HEIGHT {
            self.at(self.row + 1, 0)
        } else {
            self.at(self.row, 0).scroll()
        }
    }

    /// The cursor one cell on; past the last column it wraps to a new line.
    pub open spec fn next(self) -> Screen {
        if self.col + 1 < VGA_WIDTH {
            self.at(self.row, self.col + 1)
        } else {
            self.newline()
        }
    }

    /// The character `code` painted under the cursor in the current
    /// attribute; the cursor stays.
    pub open spec fn put(self, code: u8) -> Screen {
        Screen { cells: self.cells.update(self.index(), cell_value(self.style, code)), ..self }
    }

    /// One byte written: a space skips a cell and leaves it as it was, a
    /// newline starts a new line, any other byte is painted and the cursor
    /// moves on.
    pub open spec fn write_byte(self, c: u8) -> Screen {
        if c == SPACE {
            self.next()
        } else if c == NEWLINE {
            self.newline()
        } else {
            self.put(c).next()
        }
    }

    /// The bytes written one after the other.
    pub open spec fn write_bytes(self, bytes: Seq<u8>) -> Screen
        decreases bytes.len(),
    {
        if bytes.len() == 0 {
            self
        } else {
            self.write_bytes(bytes.drop_last()).write_byte(bytes.last())
        }
    }

    /// The display blanked and the cursor back in the top left corner.
    pub open spec fn cleared(self) -> Screen {
        Screen { row: 0, col: 0, cells: blank_cells(), ..self }
    }
}

} // verus!
