//! Single-line text input with a character cursor and an optional
//! mask for secrets.

use vstd::prelude::*;
use vstd::string::*;
use crate::text::{string_push, char_count};

verus! {

/// What a `TextInput` holds: its characters, whether it is shown
/// masked, and the cursor as a character index.
pub struct TextInputView {
    pub value: Seq<char>,
    pub masked: bool,
    pub cursor: nat,
}

#[derive(Debug)]
pub struct TextInput {
    value: String,
    masked: bool,
    cursor: usize,
}

impl View for TextInput {
    type V = TextInputView;

    closed spec fn view(&self) -> TextInputView {
        TextInputView { value: self.value@, masked: self.masked, cursor: self.cursor as nat }
    }
}

/// An empty, unmasked input.
pub open spec fn empty_input() -> TextInputView {
    TextInputView { value: Seq::empty(), masked: false, cursor: 0 }
}

/// An empty, masked input.
pub open spec fn empty_masked_input() -> TextInputView {
    TextInputView { value: Seq::empty(), masked: true, cursor: 0 }
}

impl TextInputView {
    /// The cursor never points past the end of the text.
    pub open spec fn wf(self) -> bool {
        self.cursor <= self.value.len()
    }

    /// Replace the text; the cursor goes to its end.
    pub open spec fn with_value(self, s: Seq<char>) -> TextInputView {
        TextInputView { value: s, masked: self.masked, cursor: s.len() }
    }

    /// Insert `c` at the cursor and step past it.
    pub open spec fn typed(self, c: char) -> TextInputView {
        TextInputView {
            value: self.value.subrange(0, self.cursor as int).push(c) + self.value.subrange(
                self.cursor as int,
                self.value.len() as int,
            ),
            masked: self.masked,
            cursor: self.cursor + 1,
        }
    }

    /// The cursor sits after the last character, where typing appends.
    pub open spec fn at_end(self) -> bool {
        self.cursor == self.value.len()
    }

    /// Remove the character before the cursor, if any.
    pub open spec fn backspaced(self) -> TextInputView {
        if self.cursor == 0 {
            self
        } else {
            TextInputView {
                value: self.value.subrange(0, self.cursor - 1) + self.value.subrange(
                    self.cursor as int,
                    self.value.len() as int,
                ),
                masked: self.masked,
                cursor: (self.cursor - 1) as nat,
            }
        }
    }

    /// What the screen shows: one `*` per character when masked.
    pub open spec fn display(self) -> Seq<char> {
        if self.masked {
            Seq::new(self.value.len(), |i: int| '*')
        } else {
            self.value
        }
    }
}

impl Default for TextInput {
    fn default() -> (t: Self)
        ensures
            t@ == empty_input(),
    {
        TextInput::new()
    }
}

impl Clone for TextInput {
    fn clone(&self) -> (t: Self)
        ensures
            t@ == self@,
    {
        proof {
            use_type_invariant(self);
        }
        TextInput { value: self.value.clone(), masked: self.masked, cursor: self.cursor }
    }
}

impl TextInput {
    /// The cursor never points past the end of the text.
    #[verifier::type_invariant]
    spec fn cursor_in_text(&self) -> bool {
        self.cursor <= self.value@.len()
    }

    pub fn new() -> (t: Self)
        ensures
            t@ == empty_input(),
            t@.wf(),
            t@.at_end(),
    {
        TextInput { value: String::new(), masked: false, cursor: 0 }
    }

    pub fn masked() -> (t: Self)
        ensures
            t@ == empty_masked_input(),
            t@.wf(),
            t@.at_end(),
    {
        TextInput { value: String::new(), masked: true, cursor: 0 }
    }

    pub fn value(&self) -> (s: &str)
        ensures
            s@ == self@.value,
    {
        self.value.as_str()
    }

    pub fn is_masked(&self) -> (b: bool)
        ensures
            b == self@.masked,
    {
        self.masked
    }

    pub fn set_value(&mut self, s: &str)
        ensures
            final(self)@ == old(self)@.with_value(s@),
            final(self)@.wf(),
            final(self)@.at_end(),
            final(self)@.masked == old(self)@.masked,
    {
        *self = TextInput { value: s.to_owned(), masked: self.masked, cursor: char_count(s) };
    }

    pub fn is_empty(&self) -> (b: bool)
        ensures
            b == (self@.value.len() == 0),
    {
        self.value.as_str().is_empty()
    }

    /// Inserts `c` at the cursor. On an input edited only through
    /// these methods the cursor stays at the end, so `c` is appended.
    pub fn push_char(&mut self, c: char)
        ensures
            final(self)@ == old(self)@.typed(c),
            final(self)@.wf(),
            final(self)@.masked == old(self)@.masked,
            old(self)@.at_end() ==> final(self)@.value == old(self)@.value.push(c) && final(self)@.at_end(),
    {
        proof {
            use_type_invariant(&*self);
        }
        let s = self.value.as_str();
        let n = char_count(s);
        let head = s.substring_char(0, self.cursor);
        let tail = s.substring_char(self.cursor, n);
        let mut out = head.to_owned();
        string_push(&mut out, c);
        out.append(tail);
        // The new text's length is a `usize`, so the cursor, at most the
        // old length, can step past the inserted character.
        let _len = char_count(out.as_str());
        proof {
            if old(self)@.at_end() {
                assert(out@ =~= old(self)@.value.push(c));
            }
        }
        *self = TextInput { value: out, masked: self.masked, cursor: self.cursor + 1 };
    }

    /// Removes the character before the cursor; at the end of the
    /// text, the last one.
    pub fn backspace(&mut self)
        ensures
            final(self)@ == old(self)@.backspaced(),
            final(self)@.wf(),
            final(self)@.masked == old(self)@.masked,
            old(self)@.at_end() ==> final(self)@.value == (if old(self)@.value.len() == 0 {
                old(self)@.value
            } else {
                old(self)@.value.drop_last()
            }) && final(self)@.at_end(),
    {
        proof {
            use_type_invariant(&*self);
        }
        if self.cursor == 0 {
            return;
        }
        let s = self.value.as_str();
        let n = char_count(s);
        let head = s.substring_char(0, self.cursor - 1);
        let tail = s.substring_char(self.cursor, n);
        let mut out = head.to_owned();
        out.append(tail);
        *self = TextInput { value: out, masked: self.masked, cursor: self.cursor - 1 };
    }

    /// The text the input shows on screen: the value itself, or one
    /// `*` per character when masked.
    pub fn display_text(&self) -> (s: String)
        ensures
            s@ == self@.display(),
    {
        if self.masked {
            let n = char_count(self.value.as_str());
            let mut out = String::new();
            let mut i: usize = 0;
            while i < n
                invariant
                    i <= n,
                    out@ == Seq::new(i as nat, |k: int| '*'),
                decreases n - i,
            {
                string_push(&mut out, '*');
                i = i + 1;
                assert(out@ =~= Seq::new(i as nat, |k: int| '*'));
            }
            out
        } else {
            self.value.clone()
        }
    }
}

} // verus!
