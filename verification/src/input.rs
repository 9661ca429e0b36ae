//! The line editor behind a question: it collects one line of text and
//! tells its owner when the line is accepted or given up.

use vstd::prelude::*;
use crate::key::{push_char, Key};

verus! {

/// What the line editor tells its owner after a key.
#[derive(Clone, Copy, Debug, PartialEq, Eq, Hash, Structural)]
pub enum Directive {
    /// The line is still being edited.
    Continue,
    /// The line was confirmed.
    Accept,
    /// The line was given up.
    Cancel,
}

/// The outcome of a key in the line editor: carriage return (Ctrl-M)
/// accepts, escape cancels, every other key continues.
pub open spec fn line_directive(key: Key) -> Directive {
    if key == Key::Control(13) {
        Directive::Accept
    } else if key == Key::Control(27) {
        Directive::Cancel
    } else {
        Directive::Continue
    }
}

/// The line after a key: a character is put at the end, backspace (Ctrl-H)
/// removes the last character if there is one, and every other key leaves
/// the line as it is.
pub open spec fn line_text(text: Seq<char>, key: Key) -> Seq<char> {
    match key {
        Key::Char(c) => text.push(c),
        Key::Control(code) => if code == 8 && text.len() > 0 {
            text.drop_last()
        } else {
            text
        },
        _ => text,
    }
}

/// A one-line editor with a prompt.
pub struct InputEditor {
    prompt: String,
    text: Vec<char>,
}

impl InputEditor {
    /// The prompt shown before the line.
    pub closed spec fn prompt(&self) -> Seq<char> {
        self.prompt@
    }

    /// The line as entered so far.
    pub closed spec fn text(&self) -> Seq<char> {
        self.text@
    }

    /// An editor with the given prompt and an empty line.
    pub fn new(prompt: &str) -> (editor: InputEditor)
        ensures
            editor.prompt() == prompt@,
            editor.text() == Seq::<char>::empty(),
    {
        InputEditor { prompt: String::from_str(prompt), text: Vec::new() }
    }

    /// Takes one key and says whether the line is still being edited.
    pub fn process_key(&mut self, key: &Key) -> (directive: Directive)
        ensures
            directive == line_directive(*key),
            final(self).text() == line_text(old(self).text(), *key),
            final(self).prompt() == old(self).prompt(),
    {
        match key {
            Key::Char(c) => {
                self.text.push(*c);
                Directive::Continue
            },
            Key::Control(code) => {
                if *code == 13 {
                    Directive::Accept
                } else if *code == 27 {
                    Directive::Cancel
                } else {
                    if *code == 8 && self.text.len() > 0 {
                        self.text.pop();
                    }
                    Directive::Continue
                }
            },
            _ => Directive::Continue,
        }
    }

    /// The line as entered so far.
    pub fn buffer(&self) -> (line: String)
        ensures
            line@ == self.text(),
    {
        let mut line = String::new();
        let mut i: usize = 0;
        while i < self.text.len()
            invariant
                i <= self.text.len(),
                line@ == self.text@.take(i as int),
            decreases self.text.len() - i,
        {
            push_char(&mut line, self.text[i]);
            assert(line@ =~= self.text@.take(i + 1));
            i = i + 1;
        }
        assert(self.text@.take(self.text.len() as int) =~= self.text@);
        line
    }

    /// The prompt shown before the line.
    pub fn prompt_text(&self) -> (prompt: &str)
        ensures
            prompt@ == self.prompt(),
    {
        self.prompt.as_str()
    }
}

} // verus!
