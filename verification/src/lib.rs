//! A text console for a memory-mapped character display.
//!
//! The display is a grid of 80 columns and 25 rows. Each cell is sixteen
//! bits: the character code in the low byte, the colour attribute in the
//! high byte. A [`Writer`] keeps the cursor, the attribute and the grid, and
//! turns a stream of bytes into cell writes, line wraps and scrolls.

pub mod color;
pub mod laws;
pub mod screen;
pub mod shared;
pub mod writer;

pub use color::{Color, Style};
pub use screen::Screen;
pub use shared::SharedWriter;
pub use writer::{clear_screen, print_error, Writer};
