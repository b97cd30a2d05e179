use vstd::prelude::*;

verus! {

/// The value `value` brought into `[0, len]`.
pub open spec fn clamped(value: int, len: int) -> int {
    if value < 0 {
        0
    } else if value > len {
        len
    } else {
        value
    }
}

/// An editing caret inside a text of `input_length` characters.
#[derive(Debug, Default, Clone, Copy)]
pub struct Cursor {
    pub position: usize,
    pub input_length: usize,
}

impl Cursor {
    /// The caret stands within the text.
    pub open spec fn wf(&self) -> bool {
        self.position <= self.input_length
    }

    pub fn clamp(&self, value: usize) -> (r: usize)
        ensures
            r == clamped(value as int, self.input_length as int),
    {
        if value > self.input_length {
            self.input_length
        } else {
            value
        }
    }

    pub fn reset(&mut self)
        ensures
            final(self).position == 0,
            final(self).input_length == 0,
            final(self).wf(),
    {
        self.move_to_start();
        self.input_length = 0;
    }

    pub fn left(&mut self)
        ensures
            final(self).position == clamped(old(self).position - 1, old(self).input_length as int),
            final(self).input_length == old(self).input_length,
            final(self).wf(),
    {
        self.position = self.clamp(self.position.saturating_sub(1));
    }

    pub fn right(&mut self)
        ensures
            final(self).position == clamped(
                if old(self).position == usize::MAX { usize::MAX as int } else { old(self).position + 1 },
                old(self).input_length as int,
            ),
            final(self).input_length == old(self).input_length,
            final(self).wf(),
    {
        self.position = self.clamp(self.position.saturating_add(1));
    }

    /// Takes the character count of `input` as the new length; the caret
    /// is kept inside it.
    pub fn update_input_length(&mut self, input: &str)
        ensures
            final(self).input_length == input@.len(),
            final(self).position == clamped(old(self).position as int, input@.len() as int),
            final(self).wf(),
    {
        let chars = crate::text::chars_of(input);
        self.input_length = chars.len();
        self.position = self.clamp(self.position);
    }

    pub fn is_at_start(&self) -> (r: bool)
        ensures
            r == (self.position == 0),
    {
        self.position == 0
    }

    pub fn move_to_end(&mut self)
        ensures
            final(self).position == old(self).input_length,
            final(self).input_length == old(self).input_length,
            final(self).wf(),
    {
        self.position = self.input_length;
    }

    pub fn move_to_start(&mut self)
        ensures
            final(self).position == 0,
            final(self).input_length == old(self).input_length,
            final(self).wf(),
    {
        self.position = 0;
    }
}

} // verus!
