use vstd::prelude::*;

use crate::cursor::Cursor;
use crate::text::{chars_of, string_of};

verus! {

/// A single-line text field of at most `max_length` characters with a caret.
#[derive(Debug, Clone)]
pub struct Input {
    pub cursor: Cursor,
    pub max_length: usize,
    pub text: String,
}

impl Input {
    /// The caret lies within the text, the cursor tracks the character count,
    /// and the text fits the capacity.
    pub open spec fn wf(&self) -> bool {
        &&& self.cursor.wf()
        &&& self.cursor.input_length == self.text@.len()
        &&& self.text@.len() <= self.max_length
    }

    /// Caret position after the call.
    pub open spec fn pos(&self) -> int {
        self.cursor.position as int
    }

    /// `new` is what `insert(c)` makes of `self`.
    pub open spec fn inserted(&self, c: char, new: Input) -> bool {
        &&& new.max_length == self.max_length
        &&& if self.text@.len() >= self.max_length {
            new.text@ == self.text@ && new.pos() == self.pos()
        } else {
            new.text@ == self.text@.insert(self.pos(), c) && new.pos() == self.pos() + 1
        }
    }

    /// `new` is what `delete()` makes of `self`.
    pub open spec fn deleted(&self, new: Input) -> bool {
        &&& new.max_length == self.max_length
        &&& if self.pos() == 0 {
            new.text@ == self.text@ && new.pos() == 0
        } else {
            new.text@ == self.text@.remove(self.pos() - 1) && new.pos() == self.pos() - 1
        }
    }

    /// `new` is `self` with the caret moved one character left (saturating).
    pub open spec fn moved_left(&self, new: Input) -> bool {
        &&& new.max_length == self.max_length
        &&& new.text@ == self.text@
        &&& new.pos() == if self.pos() == 0 { 0 } else { self.pos() - 1 }
    }

    /// `new` is `self` with the caret moved one character right (saturating).
    pub open spec fn moved_right(&self, new: Input) -> bool {
        &&& new.max_length == self.max_length
        &&& new.text@ == self.text@
        &&& new.pos() == if self.pos() == self.text@.len() { self.pos() } else { self.pos() + 1 }
    }

    /// `new` holds `value` cut to the capacity, with the caret at its end.
    pub open spec fn holds_value(&self, value: Seq<char>, new: Input) -> bool {
        &&& new.max_length == self.max_length
        &&& new.text@ == if value.len() > self.max_length {
            value.take(self.max_length as int)
        } else {
            value
        }
        &&& new.pos() == new.text@.len()
    }

    /// `new` is `self` emptied.
    pub open spec fn emptied(&self, new: Input) -> bool {
        &&& new.max_length == self.max_length
        &&& new.text@.len() == 0
        &&& new.pos() == 0
    }

    pub fn new(max_length: usize) -> (r: Input)
        ensures
            r.wf(),
            r.max_length == max_length,
            r.text@.len() == 0,
            r.pos() == 0,
    {
        Input { max_length, cursor: Cursor { position: 0, input_length: 0 }, text: String::new() }
    }

    /// Replaces the text by `text`, cut to the capacity, and puts the caret at its end.
    pub fn set_value(&mut self, text: String)
        requires
            old(self).wf(),
        ensures
            final(self).wf(),
            old(self).holds_value(text@, *final(self)),
    {
        let chars = chars_of(text.as_str());
        if chars.len() > self.max_length {
            let mut kept: Vec<char> = Vec::new();
            let mut i: usize = 0;
            while i < self.max_length
                invariant
                    i <= self.max_length < chars@.len(),
                    kept@ == chars@.take(i as int),
                decreases self.max_length - i,
            {
                kept.push(chars[i]);
                i = i + 1;
                assert(kept@ =~= chars@.take(i as int));
            }
            self.text = string_of(&kept);
        } else {
            self.text = text;
        }
        self.cursor.update_input_length(self.text.as_str());
        self.cursor.move_to_end();
    }

    pub fn clear(&mut self)
        requires
            old(self).wf(),
        ensures
            final(self).wf(),
            old(self).emptied(*final(self)),
    {
        self.text = String::new();
        self.cursor.reset();
    }

    pub fn right(&mut self)
        requires
            old(self).wf(),
        ensures
            final(self).wf(),
            old(self).moved_right(*final(self)),
    {
        self.cursor.right();
    }

    pub fn left(&mut self)
        requires
            old(self).wf(),
        ensures
            final(self).wf(),
            old(self).moved_left(*final(self)),
    {
        self.cursor.left();
    }

    pub fn cursor_position(&self) -> (r: usize)
        ensures
            r == self.pos(),
    {
        self.cursor.position
    }

    /// Removes the character before the caret; nothing happens at the start.
    pub fn delete(&mut self)
        requires
            old(self).wf(),
        ensures
            final(self).wf(),
            old(self).deleted(*final(self)),
    {
        if !self.cursor.is_at_start() {
            let current_index = self.cursor.position;
            let mut chars = chars_of(self.text.as_str());
            chars.remove(current_index - 1);
            self.text = string_of(&chars);
            self.cursor.left();
            self.cursor.update_input_length(self.text.as_str());
        }
    }

    /// Inserts `c` at the caret and moves past it; nothing happens at capacity.
    pub fn insert(&mut self, c: char)
        requires
            old(self).wf(),
        ensures
            final(self).wf(),
            old(self).inserted(c, *final(self)),
    {
        if self.cursor.input_length >= self.max_length {
            return;
        }
        let mut chars = chars_of(self.text.as_str());
        chars.insert(self.cursor.position, c);
        self.text = string_of(&chars);
        self.cursor.update_input_length(self.text.as_str());
        self.cursor.right();
    }

    pub fn is_empty(&self) -> (r: bool)
        ensures
            r == (self.text@.len() == 0),
    {
        self.text.as_str().is_empty()
    }
}

impl Default for Input {
    fn default() -> (r: Input)
        ensures
            r.wf(),
            r.max_length == 250,
            r.text@.len() == 0,
    {
        Input::new(250)
    }
}

} // verus!
