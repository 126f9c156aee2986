//! Asking the host for the time.

use crate::browser::effect::Effect;
use vstd::prelude::*;

verus! {

#[derive(Clone, Copy, Debug, PartialEq, Eq, Structural)]
pub enum Time {
    CurrentTime,
}

/// Asks for the current time.
pub fn current_time<Msg>() -> (effect: Effect<Msg>)
    ensures
        effect == Effect::<Msg>::Time(Time::CurrentTime),
{
    Effect::Time(Time::CurrentTime)
}

} // verus!
