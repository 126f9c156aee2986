//! Writing to the host's console.

use crate::browser::effect::Effect;
use vstd::prelude::*;

verus! {

#[derive(Clone, Debug, PartialEq, Eq)]
pub enum Console {
    Log { message: String },
}

/// Logs a message.
pub fn log<Msg>(s: &str) -> (effect: Effect<Msg>)
    ensures
        effect matches Effect::Console(Console::Log { message }) && message@ == s@,
{
    Effect::Console(Console::Log { message: String::from_str(s) })
}

} // verus!
