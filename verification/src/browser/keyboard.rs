//! Keys of the keyboard, as listeners name them.

use crate::text::same_text;
use vstd::prelude::*;

verus! {

/// A key that a keyboard listener waits for.
#[derive(Clone, Debug, PartialEq, Eq)]
pub enum Key {
    /// Every key.
    Any,
    Escape,
    Enter,
    /// The key with the given name.
    Key(String),
}

/// The error of reading a key from text.
#[derive(Debug, PartialEq, Eq)]
pub struct ParseKeyError;

/// Whether `name` is the name that stands for every key.
pub open spec fn is_wildcard_name(name: Seq<char>) -> bool {
    name == "any"@
}

impl Key {
    /// The name under which the host knows the key.
    pub open spec fn text(&self) -> Seq<char> {
        match self {
            Key::Any => "any"@,
            Key::Escape => "escape"@,
            Key::Enter => "enter"@,
            Key::Key(key) => key@,
        }
    }

    /// Whether the key stands for every key.
    pub open spec fn is_wildcard(&self) -> bool {
        is_wildcard_name(self.text())
    }

    /// The name under which the host knows the key.
    pub fn to_string(&self) -> (text: String)
        ensures
            text@ == self.text(),
    {
        match self {
            Key::Any => String::from_str("any"),
            Key::Escape => String::from_str("escape"),
            Key::Enter => String::from_str("enter"),
            Key::Key(key) => key.clone(),
        }
    }

    /// Reads a key from its name. Every name is a key, so this never fails.
    pub fn from_str(s: &str) -> (r: Result<Key, ParseKeyError>)
        ensures
            r is Ok,
            r->Ok_0.text() == s@,
            s@ == "any"@ <==> r->Ok_0 is Any,
            s@ == "escape"@ <==> r->Ok_0 is Escape,
            s@ == "enter"@ <==> r->Ok_0 is Enter,
    {
        proof {
            reveal_strlit("any");
            reveal_strlit("escape");
            reveal_strlit("enter");
        }
        if same_text(s, "any") {
            Ok(Key::Any)
        } else if same_text(s, "escape") {
            Ok(Key::Escape)
        } else if same_text(s, "enter") {
            Ok(Key::Enter)
        } else {
            Ok(Key::Key(String::from_str(s)))
        }
    }
}

impl core::str::FromStr for Key {
    type Err = ParseKeyError;

    /// Reads a key from its name, as `Key::from_str` does.
    fn from_str(s: &str) -> (r: Result<Key, ParseKeyError>)
        ensures
            r is Ok,
            r->Ok_0.text() == s@,
            s@ == "any"@ <==> r->Ok_0 is Any,
            s@ == "escape"@ <==> r->Ok_0 is Escape,
            s@ == "enter"@ <==> r->Ok_0 is Enter,
    {
        Key::from_str(s)
    }
}

} // verus!
