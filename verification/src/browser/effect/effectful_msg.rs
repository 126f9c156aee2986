//! Messages that wait for a value that an effect brings.

use crate::browser::effect::Effect;
use vstd::prelude::*;

verus! {

/// A message with a slot to fill, and the effect whose outcome fills it. The
/// host performs the effect, writes the outcome into the slot and only then
/// delivers the message.
#[derive(Debug, PartialEq)]
pub struct EffectfulMsg<Msg> {
    pub msg: Msg,
    pub effect: Effect<Msg>,
}

impl<Msg: Clone> Clone for EffectfulMsg<Msg> {
    fn clone(&self) -> (copy: Self) {
        EffectfulMsg { msg: self.msg.clone(), effect: self.effect.clone() }
    }
}

/// Pairs a message with the effect that resolves it.
pub fn effectful_msg<Msg>(msg: Msg, effect: Effect<Msg>) -> (paired: Effect<Msg>)
    ensures
        paired == Effect::EffectfulMsg(Box::new(EffectfulMsg { msg, effect })),
{
    Effect::EffectfulMsg(Box::new(EffectfulMsg { msg, effect }))
}

} // verus!
