//! Identifiers of elements in the document.

use crate::browser::selector::id_selector;
use crate::browser::selector::Selector;
use vstd::prelude::*;

verus! {

/// The `id` attribute of an element.
#[derive(Clone, Debug, PartialEq, Eq)]
pub struct DomId(String);

impl View for DomId {
    type V = Seq<char>;

    closed spec fn view(&self) -> Seq<char> {
        self.0@
    }
}

impl DomId {
    pub fn new(id: &str) -> (dom_id: DomId)
        ensures
            dom_id@ == id@,
    {
        DomId(String::from_str(id))
    }

    /// The selector that finds the element with this id.
    pub fn selector(&self) -> (s: Selector)
        ensures
            s@ == id_selector(self@),
    {
        Selector::id(self.0.as_str())
    }

    /// The id as text.
    pub fn to_string(&self) -> (text: String)
        ensures
            text@ == self@,
    {
        self.0.clone()
    }
}

} // verus!
