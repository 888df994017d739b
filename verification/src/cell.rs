use vstd::prelude::*;

use crate::style::{plain_style, Style};

verus! {

/// One character cell of the screen.
///
/// A wide character occupies its own cell and the cell to its right; the
/// latter is marked as a wide continuation and holds a blank.
#[derive(Clone, Copy, Debug, PartialEq, Eq, Structural)]
pub struct Cell {
    pub ch: char,
    pub wide_continuation: bool,
    pub style: Style,
}

/// A blank cell carrying the given style.
pub open spec fn blank_cell(style: Style) -> Cell {
    Cell { ch: ' ', wide_continuation: false, style }
}

impl Cell {
    pub fn blank() -> (c: Cell)
        ensures
            c == blank_cell(plain_style()),
    {
        Cell { ch: ' ', wide_continuation: false, style: Style::plain() }
    }

    pub fn blank_with_style(style: Style) -> (c: Cell)
        ensures
            c == blank_cell(style),
    {
        Cell { ch: ' ', wide_continuation: false, style }
    }

    pub fn ch(&self) -> (c: char)
        ensures
            c == self.ch,
    {
        self.ch
    }

    pub fn is_wide_continuation(&self) -> (b: bool)
        ensures
            b == self.wide_continuation,
    {
        self.wide_continuation
    }

    pub fn style(&self) -> (s: Style)
        ensures
            s == self.style,
    {
        self.style
    }

    pub fn set_ch(&mut self, ch: char, style: Style)
        ensures
            *final(self) == (Cell { ch, wide_continuation: false, style }),
    {
        self.ch = ch;
        self.wide_continuation = false;
        self.style = style;
    }

    pub fn set_wide_continuation(&mut self, style: Style)
        ensures
            *final(self) == (Cell { ch: ' ', wide_continuation: true, style }),
    {
        self.ch = ' ';
        self.wide_continuation = true;
        self.style = style;
    }

    pub fn clear(&mut self)
        ensures
            *final(self) == blank_cell(plain_style()),
    {
        self.ch = ' ';
        self.wide_continuation = false;
        self.style = Style::plain();
    }

    pub fn clear_with_style(&mut self, style: Style)
        ensures
            *final(self) == blank_cell(style),
    {
        self.ch = ' ';
        self.wide_continuation = false;
        self.style = style;
    }
}

} // verus!
