//! Buttons of the mouse.

use vstd::prelude::*;

verus! {

/// A mouse button, by its role.
#[derive(Clone, Copy, Debug, PartialEq, Eq, Structural)]
pub enum Button {
    Main,
    Auxiliary,
    Secondary,
    Fourth,
    Fifth,
}

impl Button {
    /// The name under which the host knows the button.
    pub open spec fn text(&self) -> Seq<char> {
        match self {
            Button::Main => "main"@,
            Button::Auxiliary => "auxiliary"@,
            Button::Secondary => "secondary"@,
            Button::Fourth => "fourth"@,
            Button::Fifth => "fifth"@,
        }
    }

    /// The name under which the host knows the button.
    pub fn to_string(&self) -> (text: String)
        ensures
            text@ == self.text(),
    {
        match self {
            Button::Main => String::from_str("main"),
            Button::Auxiliary => String::from_str("auxiliary"),
            Button::Secondary => String::from_str("secondary"),
            Button::Fourth => String::from_str("fourth"),
            Button::Fifth => String::from_str("fifth"),
        }
    }
}

} // verus!
