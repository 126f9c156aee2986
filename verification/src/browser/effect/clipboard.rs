//! Writing to the clipboard.

use crate::browser::effect::effectful_msg::effectful_msg;
use crate::browser::effect::Effect;
use crate::browser::value::accepts_default;
use crate::browser::value::made_from_default;
use crate::browser::value::pending_msg;
use crate::browser::value::Capture;
use vstd::prelude::*;

verus! {

#[derive(Clone, Debug, PartialEq, Eq)]
pub enum Clipboard {
    WriteText { text: String },
}

/// What the host reports after it tried to write to the clipboard.
#[derive(Clone, Debug, PartialEq, Eq)]
pub struct WriteTextResult {
    pub success: bool,
    pub error: Option<String>,
}

impl Default for WriteTextResult {
    fn default() -> (result: Self)
        ensures
            !result.success,
            result.error is None,
    {
        WriteTextResult { success: false, error: None }
    }
}

/// Writes `s` to the clipboard and delivers the message that `to_msg` makes, with
/// the outcome in its slot.
pub fn write_text<Msg, ToMsg>(s: &str, to_msg: ToMsg) -> (effect: Effect<Msg>) where
    ToMsg: Fn(Capture<WriteTextResult>) -> Msg,

    requires
        accepts_default::<Capture<WriteTextResult>, Msg, ToMsg>(to_msg),
    ensures
        effect matches Effect::EffectfulMsg(paired) && {
            &&& paired.effect matches Effect::Clipboard(Clipboard::WriteText { text }) && text@
                == s@
            &&& made_from_default::<Capture<WriteTextResult>, Msg, ToMsg>(to_msg, paired.msg)
        },
{
    let effect = Effect::Clipboard(Clipboard::WriteText { text: String::from_str(s) });
    let msg = pending_msg(to_msg);
    effectful_msg(msg, effect)
}

} // verus!
