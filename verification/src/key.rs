//! Key events and their printed form.

use vstd::prelude::*;

verus! {

/// Modifier combination held together with a named key.
#[derive(Clone, Copy, Debug, PartialEq, Eq, Hash, Structural)]
pub enum Modifier {
    Plain,
    Shift,
    Ctrl,
    ShiftCtrl,
}

/// Keys known by name rather than by the character they produce.
#[derive(Clone, Copy, Debug, PartialEq, Eq, Hash, Structural)]
pub enum Named {
    Up,
    Down,
    Left,
    Right,
    PageUp,
    PageDown,
    Home,
    End,
    Insert,
    Delete,
}

/// One input event.
///
/// `Idle` means that nothing arrived within the poll interval of the key
/// source. `Control` carries a control code, which is below 32 for every key
/// a terminal can send.
#[derive(Clone, Copy, Debug, PartialEq, Eq, Hash, Structural)]
pub enum Key {
    Idle,
    Char(char),
    Control(u8),
    Named(Named, Modifier),
}

/// The universal cancel key, Ctrl-G.
pub open spec fn ctrl_g() -> Key {
    Key::Control(7)
}

/// The prefix that a modifier combination puts before the name of a key.
pub open spec fn modifier_label(m: Modifier) -> Seq<char> {
    match m {
        Modifier::Plain => ""@,
        Modifier::Shift => "S-"@,
        Modifier::Ctrl => "C-"@,
        Modifier::ShiftCtrl => "S-C-"@,
    }
}

/// The name under which a named key is shown.
pub open spec fn named_label(n: Named) -> Seq<char> {
    match n {
        Named::Up => "up"@,
        Named::Down => "down"@,
        Named::Left => "left"@,
        Named::Right => "right"@,
        Named::PageUp => "pgup"@,
        Named::PageDown => "pgdn"@,
        Named::Home => "home"@,
        Named::End => "end"@,
        Named::Insert => "ins"@,
        Named::Delete => "del"@,
    }
}

/// The letter of a control code in caret notation: code 7 is `G`. Codes that
/// no terminal sends are shown as `?`.
pub open spec fn caret_letter(code: u8) -> char {
    if code < 32 {
        ((code + 64) as u8) as char
    } else {
        '?'
    }
}

/// How a single key is shown to the user.
pub open spec fn key_label(k: Key) -> Seq<char> {
    match k {
        Key::Idle => "idle"@,
        Key::Char(c) => seq![c],
        Key::Control(code) => seq!['^', caret_letter(code)],
        Key::Named(n, m) => modifier_label(m) + named_label(n),
    }
}

/// How a sequence of keys is shown: the labels of its keys, each separated
/// from the next by one space.
pub open spec fn seq_label(keys: Seq<Key>) -> Seq<char>
    decreases keys.len(),
{
    if keys.len() == 0 {
        Seq::empty()
    } else if keys.len() == 1 {
        key_label(keys[0])
    } else {
        seq_label(keys.drop_last()) + seq![' '] + key_label(keys.last())
    }
}

/// Appends one character to a string by calling `String::push`, which
/// leaves the characters already there in place and puts `c` after them.
#[verifier::external_body]
pub(crate) fn push_char(text: &mut String, c: char)
    ensures
        final(text)@ == old(text)@.push(c),
{
    text.push(c)
}

impl Modifier {
    /// The prefix put before the name of a key pressed with this
    /// combination.
    pub fn label(&self) -> (text: &'static str)
        ensures
            text@ == modifier_label(*self),
    {
        match self {
            Modifier::Plain => "",
            Modifier::Shift => "S-",
            Modifier::Ctrl => "C-",
            Modifier::ShiftCtrl => "S-C-",
        }
    }
}

impl Named {
    /// The name under which the key is shown.
    pub fn label(&self) -> (text: &'static str)
        ensures
            text@ == named_label(*self),
    {
        match self {
            Named::Up => "up",
            Named::Down => "down",
            Named::Left => "left",
            Named::Right => "right",
            Named::PageUp => "pgup",
            Named::PageDown => "pgdn",
            Named::Home => "home",
            Named::End => "end",
            Named::Insert => "ins",
            Named::Delete => "del",
        }
    }
}

impl Key {
    /// The universal cancel key, Ctrl-G.
    pub fn cancel() -> (k: Key)
        ensures
            k == ctrl_g(),
    {
        Key::Control(7)
    }

    /// Whether the key is the universal cancel key.
    pub fn is_cancel(&self) -> (b: bool)
        ensures
            b == (*self == ctrl_g()),
    {
        match self {
            Key::Control(code) => *code == 7,
            _ => false,
        }
    }

    /// The text that shows this key to the user.
    pub fn label(&self) -> (text: String)
        ensures
            text@ == key_label(*self),
    {
        match self {
            Key::Idle => String::from_str("idle"),
            Key::Char(c) => {
                let mut text = String::new();
                push_char(&mut text, *c);
                assert(text@ =~= seq![*c]);
                text
            },
            Key::Control(code) => {
                let letter: char = if *code < 32 {
                    (*code + 64) as char
                } else {
                    '?'
                };
                let mut text = String::new();
                push_char(&mut text, '^');
                push_char(&mut text, letter);
                assert(text@ =~= seq!['^', letter]);
                text
            },
            Key::Named(n, m) => {
                let mut text = String::from_str(m.label());
                text.append(n.label());
                text
            },
        }
    }
}

/// Renders a sequence of keys as the labels of its keys separated by single
/// spaces.
pub fn key_seq_text(keys: &Vec<Key>) -> (text: String)
    ensures
        text@ == seq_label(keys@),
{
    let mut text = String::new();
    let mut i: usize = 0;
    while i < keys.len()
        invariant
            i <= keys.len(),
            text@ == seq_label(keys@.take(i as int)),
        decreases keys.len() - i,
    {
        let label = keys[i].label();
        proof {
            let before = keys@.take(i as int);
            let after = keys@.take(i + 1);
            assert(after.drop_last() =~= before);
            assert(after.last() == keys@[i as int]);
            if i == 0 {
                assert(after[0] == keys@[0]);
                assert(text@ + label@ =~= label@);
            } else {
                assert(text@ + seq![' '] + label@ =~= (text@.push(' ')) + label@);
            }
        }
        if i > 0 {
            push_char(&mut text, ' ');
        }
        text.append(label.as_str());
        i = i + 1;
    }
    assert(keys@.take(keys.len() as int) =~= keys@);
    text
}

} // verus!
