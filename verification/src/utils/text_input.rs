//! A line of text under edit, with its cursor.

use vstd::prelude::*;
use vstd::string::*;

verus! {

#[derive(Debug, PartialEq, Eq)]
pub struct TextInput {
    pub text: String,
    /// The number of characters before the cursor.
    pub cursor_position: usize,
}

/// What a [`TextInput`] holds.
pub struct TextInputView {
    pub text: Seq<char>,
    pub cursor_position: usize,
}

impl View for TextInput {
    type V = TextInputView;

    open spec fn view(&self) -> TextInputView {
        TextInputView { text: self.text@, cursor_position: self.cursor_position }
    }
}

impl TextInputView {
    /// The cursor stands inside the text or at its end.
    pub open spec fn wf(self) -> bool {
        self.cursor_position <= self.text.len()
    }

    /// The empty input.
    pub open spec fn empty() -> TextInputView {
        TextInputView { text: Seq::empty(), cursor_position: 0 }
    }

    /// The input that holds `text`, with the cursor at its end.
    pub open spec fn holding(text: Seq<char>) -> TextInputView {
        TextInputView { text: text, cursor_position: text.len() as usize }
    }

    /// Where the part of the text that is shown in `length` columns starts:
    /// as far to the left as leaves the cursor in sight.
    pub open spec fn window_start(self, length: usize) -> int {
        if self.cursor_position > length {
            self.cursor_position - length
        } else {
            0
        }
    }

    /// Where the part of the text that is shown in `length` columns ends.
    pub open spec fn window_end(self, length: usize) -> int {
        if self.window_start(length) + length < self.text.len() {
            self.window_start(length) + length
        } else {
            self.text.len() as int
        }
    }

    /// The input after `text` was typed at the cursor.
    pub open spec fn entered(self, text: Seq<char>) -> TextInputView {
        TextInputView {
            text: self.text.subrange(0, self.cursor_position as int) + text + self.text.subrange(
                self.cursor_position as int,
                self.text.len() as int,
            ),
            cursor_position: (self.cursor_position + text.len()) as usize,
        }
    }
}

impl Default for TextInput {
    fn default() -> (input: TextInput)
        ensures
            input@ == TextInputView::empty(),
    {
        TextInput { text: String::new(), cursor_position: 0 }
    }
}

impl Clone for TextInput {
    fn clone(&self) -> (copy: TextInput)
        ensures
            copy@ == self@,
    {
        TextInput { text: self.text.clone(), cursor_position: self.cursor_position }
    }
}

impl TextInput {
    /// Empties the input.
    pub fn reset_input(&mut self)
        ensures
            final(self)@ == TextInputView::empty(),
    {
        self.text = String::new();
        self.cursor_position = 0;
    }

    /// Moves the cursor to the start.
    pub fn reset_cursor(&mut self)
        ensures
            final(self)@ == (TextInputView { cursor_position: 0, ..old(self)@ }),
    {
        self.cursor_position = 0;
    }

    /// The part of the text that fits in `length` columns with the cursor in
    /// sight, and the place of the cursor in that part.
    pub fn get_padded_text_and_cursor(&self, length: usize) -> (shown: (String, usize))
        requires
            self@.wf(),
        ensures
            shown.0@ == self@.text.subrange(self@.window_start(length), self@.window_end(length)),
            shown.1 == self@.cursor_position - self@.window_start(length),
    {
        let total = self.text.as_str().unicode_len();
        let start = if self.cursor_position > length {
            self.cursor_position - length
        } else {
            0
        };
        let end = if total - start > length {
            start + length
        } else {
            total
        };
        (self.text.as_str().substring_char(start, end).to_string(), self.cursor_position - start)
    }

    /// Types `text` at the cursor, which moves to the end of what was typed.
    pub fn enter_str(&mut self, text: &str)
        requires
            old(self)@.wf(),
        ensures
            final(self)@ == old(self)@.entered(text@),
            final(self)@.wf(),
            final(self)@.cursor_position == old(self)@.cursor_position + text@.len(),
            old(self)@ == TextInputView::empty() ==> final(self)@ == TextInputView::holding(text@),
    {
        let length = self.text.as_str().unicode_len();
        let mut entered = self.text.as_str().substring_char(0, self.cursor_position).to_string();
        entered.append(text);
        entered.append(self.text.as_str().substring_char(self.cursor_position, length));
        let after = length - self.cursor_position;
        let total = entered.as_str().unicode_len();
        self.cursor_position = total - after;
        self.text = entered;
    }
}

} // verus!
