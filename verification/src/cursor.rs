use vstd::prelude::*;

verus! {

/// A cursor position on the screen, counted from zero.
#[derive(Clone, Copy, Debug, PartialEq, Eq, Structural)]
pub struct Cursor {
    pub row: usize,
    pub col: usize,
}

impl Cursor {
    pub fn new(row: usize, col: usize) -> (c: Cursor)
        ensures
            c.row == row,
            c.col == col,
    {
        Cursor { row, col }
    }
}

impl Default for Cursor {
    fn default() -> (c: Cursor)
        ensures
            c.row == 0,
            c.col == 0,
    {
        Cursor { row: 0, col: 0 }
    }
}

/// The shape in which the cursor is drawn.
#[derive(Clone, Copy, Debug, PartialEq, Eq, Structural)]
pub enum CursorStyle {
    Block,
    Underline,
    Bar,
}

impl Default for CursorStyle {
    fn default() -> (s: CursorStyle)
        ensures
            s == CursorStyle::Block,
    {
        CursorStyle::Block
    }
}

} // verus!
