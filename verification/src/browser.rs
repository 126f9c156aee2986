//! What the library knows of the browser: identifiers, selectors, keys, and the
//! descriptions of effects and subscriptions that the host carries out.

use vstd::prelude::*;

pub mod dom_id;
pub mod effect;
pub mod event;
pub mod file;
pub mod keyboard;
pub mod matching;
pub mod mouse;
pub mod queue;
pub mod queue_strategy;
pub mod selector;
pub mod subscription;
pub mod value;

verus! {

/// How a burst of events is thinned out before it is delivered.
#[derive(Clone, Debug, PartialEq, Eq)]
pub struct DebounceConfig {
    pub delay: u32,
    pub leading: bool,
    pub trailing: bool,
}

/// The inner size of the browser window, in pixels.
#[derive(Clone, Debug, Default, PartialEq, Eq)]
pub struct WindowSize {
    pub width: u32,
    pub height: u32,
}

} // verus!
