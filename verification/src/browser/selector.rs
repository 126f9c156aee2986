//! CSS selectors, kept as text.

use crate::text::join2;
use crate::text::join3;
use vstd::prelude::*;

verus! {

/// A CSS selector.
#[derive(Clone, Debug, PartialEq, Eq)]
pub struct Selector(String);

impl View for Selector {
    type V = Seq<char>;

    closed spec fn view(&self) -> Seq<char> {
        self.0@
    }
}

/// The selector of the element with the given id.
pub open spec fn id_selector(id: Seq<char>) -> Seq<char> {
    "#"@ + id
}

/// The selector of the radio buttons that share the given name.
pub open spec fn radio_group_selector(name: Seq<char>) -> Seq<char> {
    "input[type=radio][name="@ + name + "]"@
}

/// The selector of the elements that carry the data attribute `name`.
pub open spec fn data_selector(name: Seq<char>) -> Seq<char> {
    "[data-"@ + name + "]"@
}

/// The selector of the elements whose data attribute `key` holds `value`.
pub open spec fn data_value_selector(key: Seq<char>, value: Seq<char>) -> Seq<char> {
    "[data-"@ + key + "=\""@ + value + "\"]"@
}

impl Selector {
    pub fn new(selector: &str) -> (s: Selector)
        ensures
            s@ == selector@,
    {
        Selector(String::from_str(selector))
    }

    pub fn id(id: &str) -> (s: Selector)
        ensures
            s@ == id_selector(id@),
    {
        Selector(join2("#", id))
    }

    pub fn radio_group(name: &str) -> (s: Selector)
        ensures
            s@ == radio_group_selector(name@),
    {
        Selector(join3("input[type=radio][name=", name, "]"))
    }

    pub fn data(name: &str) -> (s: Selector)
        ensures
            s@ == data_selector(name@),
    {
        Selector(join3("[data-", name, "]"))
    }

    pub fn data_value(key: &str, value: &str) -> (s: Selector)
        ensures
            s@ == data_value_selector(key@, value@),
    {
        let mut text = join3("[data-", key, "=\"");
        text.append(value);
        text.append("\"]");
        Selector(text)
    }

    /// The selector as text, borrowed.
    pub fn as_str(&self) -> (text: &str)
        ensures
            text@ == self@,
    {
        self.0.as_str()
    }

    /// The selector as text.
    pub fn to_string(&self) -> (text: String)
        ensures
            text@ == self@,
    {
        self.0.clone()
    }

    /// Whether two selectors are the same text.
    pub fn same_as(&self, other: &Selector) -> (r: bool)
        ensures
            r == (self@ == other@),
    {
        self.0 == other.0
    }
}

} // verus!
