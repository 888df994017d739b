use vstd::prelude::*;

pub mod cell;
pub mod charset;
pub mod composition;
pub mod cursor;
pub mod grid;
pub mod input;
pub mod laws;
pub mod mouse;
pub mod parser;
pub mod paste;
pub mod pty;
pub mod render;
pub mod selection;
pub mod smoke;
pub mod state;
pub mod style;
pub mod terminal_buffer;
pub mod terminal_view;
pub mod text;

pub use cursor::{Cursor, CursorStyle};
pub use state::{TerminalModes, TerminalSnapshot, TerminalState};
pub use style::{Color, Style, StyledLine, StyledSpan};

verus! {

} // verus!
