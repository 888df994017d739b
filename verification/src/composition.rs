use vstd::prelude::*;

use crate::text::str_chars;

verus! {

/// A range of characters in the text being composed.
#[derive(Clone, Copy, Debug, PartialEq, Eq, Structural)]
pub struct TextRange {
    pub location: usize,
    pub length: usize,
}

/// The empty range at the start.
pub open spec fn empty_text_range() -> TextRange {
    TextRange { location: 0, length: 0 }
}

impl Default for TextRange {
    fn default() -> (r: TextRange)
        ensures
            r == empty_text_range(),
    {
        TextRange { location: 0, length: 0 }
    }
}

/// The input method's text that is still being composed ("marked"), and the
/// selection within it.
#[derive(Clone, Debug)]
pub struct CompositionState {
    marked_text: String,
    selected_range: TextRange,
}

impl CompositionState {
    /// The text being composed.
    pub closed spec fn marked(&self) -> Seq<char> {
        self.marked_text@
    }

    /// The selection within the text being composed.
    pub closed spec fn selection(&self) -> TextRange {
        self.selected_range
    }

    /// The range of the marked text: all of it, or "not found" (location at the
    /// largest `usize`, length zero) when there is none.
    pub open spec fn marked_range_spec(&self) -> TextRange {
        if self.marked().len() > 0 {
            TextRange { location: 0, length: self.marked().len() as usize }
        } else {
            TextRange { location: usize::MAX, length: 0 }
        }
    }

    /// Replaces the marked text and its selection.
    pub fn set_marked_text(&mut self, text: String, selected_range: TextRange)
        ensures
            final(self).marked() == text@,
            final(self).selection() == selected_range,
    {
        self.marked_text = text;
        self.selected_range = selected_range;
    }

    /// Ends the composition: no marked text, the selection reset.
    pub fn clear(&mut self)
        ensures
            final(self).marked() == Seq::<char>::empty(),
            final(self).selection() == empty_text_range(),
    {
        self.marked_text = String::new();
        self.selected_range = TextRange::default();
    }

    /// Whether any text is being composed.
    pub fn has_marked_text(&self) -> (b: bool)
        ensures
            b == (self.marked().len() > 0),
    {
        !self.marked_text.as_str().is_empty()
    }

    /// The text being composed.
    pub fn marked_text(&self) -> (s: &str)
        ensures
            s@ == self.marked(),
    {
        self.marked_text.as_str()
    }

    /// The range of the marked text, in characters.
    pub fn marked_range(&self) -> (r: TextRange)
        ensures
            r == self.marked_range_spec(),
    {
        let chars = str_chars(self.marked_text.as_str());
        if chars.len() > 0 {
            TextRange { location: 0, length: chars.len() }
        } else {
            TextRange { location: usize::MAX, length: 0 }
        }
    }

    /// The selection within the marked text.
    pub fn selected_range(&self) -> (r: TextRange)
        ensures
            r == self.selection(),
    {
        self.selected_range
    }
}

impl Default for CompositionState {
    fn default() -> (c: CompositionState)
        ensures
            c.marked() == Seq::<char>::empty(),
            c.selection() == empty_text_range(),
    {
        CompositionState { marked_text: String::new(), selected_range: TextRange::default() }
    }
}

} // verus!
