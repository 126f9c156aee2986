//! Static assets referred to by their URI.

use vstd::prelude::*;

verus! {

/// A static asset, known by its URI.
#[derive(Clone, Debug, PartialEq, Eq)]
pub struct Asset {
    uri: String,
}

impl View for Asset {
    type V = Seq<char>;

    closed spec fn view(&self) -> Seq<char> {
        self.uri@
    }
}

impl Asset {
    pub fn new(uri: &str) -> (asset: Self)
        ensures
            asset@ == uri@,
    {
        Self { uri: String::from_str(uri) }
    }

    pub fn uri(&self) -> (uri: String)
        ensures
            uri@ == self@,
    {
        self.uri.clone()
    }
}

} // verus!
