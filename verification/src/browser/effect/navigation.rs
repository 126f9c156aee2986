//! Changing the address that the browser shows.

use crate::browser::effect::Effect;
use vstd::prelude::*;

verus! {

#[derive(Clone, Debug, PartialEq, Eq)]
pub enum Navigation {
    PushUrl(String),
    ReplaceUrl(String),
    SetLocation(String),
}

/// Adds an entry to the history and shows its address.
pub fn push_url<Msg>(url: &str) -> (effect: Effect<Msg>)
    ensures
        effect matches Effect::Navigation(Navigation::PushUrl(pushed)) && pushed@ == url@,
{
    Effect::Navigation(Navigation::PushUrl(String::from_str(url)))
}

/// Replaces the current entry of the history.
pub fn replace_url<Msg>(url: &str) -> (effect: Effect<Msg>)
    ensures
        effect matches Effect::Navigation(Navigation::ReplaceUrl(replaced)) && replaced@ == url@,
{
    Effect::Navigation(Navigation::ReplaceUrl(String::from_str(url)))
}

/// Leaves the page for another address.
pub fn set_location<Msg>(url: &str) -> (effect: Effect<Msg>)
    ensures
        effect matches Effect::Navigation(Navigation::SetLocation(location)) && location@ == url@,
{
    Effect::Navigation(Navigation::SetLocation(String::from_str(url)))
}

} // verus!
