//! Timers of the browser.

use crate::browser::effect::effectful_msg::effectful_msg;
use crate::browser::effect::effectful_msg::EffectfulMsg;
use crate::browser::effect::Effect;
use vstd::prelude::*;

verus! {

#[derive(Clone, Copy, Debug, PartialEq, Eq, Structural)]
pub enum Browser {
    /// A timer that fires once, after `duration` milliseconds.
    SetTimeout { duration: u64 },
}

/// Delivers `msg` once `duration` milliseconds have passed.
pub fn set_timeout<Msg>(duration: u64, msg: Msg) -> (effect: Effect<Msg>)
    ensures
        effect == Effect::EffectfulMsg(
            Box::new(
                EffectfulMsg { msg, effect: Effect::Browser(Browser::SetTimeout { duration }) },
            ),
        ),
{
    let effect = Effect::Browser(Browser::SetTimeout { duration });
    effectful_msg(msg, effect)
}

} // verus!
