//! Storage that outlives the session.

use crate::browser::effect::effectful_msg::effectful_msg;
use crate::browser::effect::Effect;
use crate::browser::value::accepts_default;
use crate::browser::value::made_from_default;
use crate::browser::value::pending_msg;
use crate::browser::value::Capture;
use crate::browser::value::JsonValue;
use vstd::prelude::*;

verus! {

#[derive(Clone, Debug, PartialEq)]
pub enum LocalStorage {
    GetItem { key: String },
    SetItem { key: String, value: JsonValue },
}

/// Reads the item stored under `key` and delivers the message that `to_msg` makes,
/// with the item in its slot.
pub fn get_item<Msg, ToMsg, T>(key: &str, to_msg: ToMsg) -> (effect: Effect<Msg>) where
    ToMsg: Fn(Capture<T>) -> Msg,
    T: Default,

    requires
        accepts_default::<Capture<T>, Msg, ToMsg>(to_msg),
    ensures
        effect matches Effect::EffectfulMsg(paired) && {
            &&& paired.effect matches Effect::LocalStorage(LocalStorage::GetItem { key: read })
                && read@ == key@
            &&& made_from_default::<Capture<T>, Msg, ToMsg>(to_msg, paired.msg)
        },
{
    let msg = pending_msg(to_msg);
    let effect = Effect::LocalStorage(LocalStorage::GetItem { key: String::from_str(key) });
    effectful_msg(msg, effect)
}

/// Stores `value` under `key` and delivers the message that `to_msg` makes, with
/// the outcome in its slot.
pub fn set_item<Msg, ToMsg>(key: &str, value: JsonValue, to_msg: ToMsg) -> (effect: Effect<
    Msg,
>) where ToMsg: Fn(Capture<bool>) -> Msg
    requires
        accepts_default::<Capture<bool>, Msg, ToMsg>(to_msg),
    ensures
        effect matches Effect::EffectfulMsg(paired) && {
            &&& paired.effect matches Effect::LocalStorage(
                LocalStorage::SetItem { key: written, value: stored },
            ) && written@ == key@ && stored == value
            &&& made_from_default::<Capture<bool>, Msg, ToMsg>(to_msg, paired.msg)
        },
{
    let effect = Effect::LocalStorage(LocalStorage::SetItem { key: String::from_str(key), value });
    let msg = pending_msg(to_msg);
    effectful_msg(msg, effect)
}

} // verus!
