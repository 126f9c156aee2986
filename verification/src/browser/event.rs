//! Where an event is sent to or comes from.

use vstd::prelude::*;

verus! {

/// The object that an event is dispatched on.
#[derive(Clone, Debug, PartialEq, Eq)]
pub enum EventTarget {
    Window,
    Document,
    Element { element_id: String },
}

} // verus!
