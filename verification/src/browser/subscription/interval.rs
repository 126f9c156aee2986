//! Timers that fire again and again.

use crate::browser::effect::Effect;
use crate::browser::queue_strategy::QueueStrategy;
use crate::browser::subscription::Subscription;
use crate::browser::subscription::SubscriptionMsg;
use crate::browser::value::accepts_default;
use crate::browser::value::made_from_default;
use crate::browser::value::Capture;
use crate::text::decimal;
use crate::text::decimal_string;
use crate::text::join3;
use vstd::prelude::*;

verus! {

/// A timer that fires every `duration` milliseconds.
#[derive(Debug, PartialEq)]
pub struct Interval<Msg> {
    pub id: String,
    pub duration: u64,
    pub msg: SubscriptionMsg<Msg>,
    pub queue_strategy: QueueStrategy,
}

impl<Msg: Clone> Clone for Interval<Msg> {
    fn clone(&self) -> (copy: Self) {
        Interval {
            id: self.id.clone(),
            duration: self.duration,
            msg: self.msg.clone(),
            queue_strategy: self.queue_strategy,
        }
    }
}

/// The namespace of an interval that asks for none of its own.
pub const DEFAULT_NAMESPACE: &'static str = "interval";

/// The id of the interval that `namespace` runs every `duration` milliseconds.
pub open spec fn interval_id(namespace: Seq<char>, duration: u64) -> Seq<char> {
    namespace + "-"@ + decimal(duration as nat)
}

impl<Msg> Interval<Msg> {
    /// Whether the interval is the one that `namespace` runs every `duration`
    /// milliseconds: it has that id and duration, and keeps only its latest tick.
    pub open spec fn runs(&self, namespace: Seq<char>, duration: u64) -> bool {
        &&& self.id@ == interval_id(namespace, duration)
        &&& self.duration == duration
        &&& self.queue_strategy == QueueStrategy::DropOlder
    }
}

/// Delivers `msg` every `duration` milliseconds.
pub fn interval<Msg>(namespace: &str, duration: u64, msg: Msg) -> (subscription: Subscription<Msg>)
    ensures
        subscription matches Subscription::Interval(timer) && timer.runs(namespace@, duration)
            && timer.msg == SubscriptionMsg::Pure(msg),
{
    Subscription::Interval(
        Interval {
            id: join3(namespace, "-", decimal_string(duration).as_str()),
            duration,
            msg: SubscriptionMsg::pure(msg),
            queue_strategy: QueueStrategy::DropOlder,
        },
    )
}

/// Performs `effect` every `duration` milliseconds and delivers the message that
/// `to_msg` makes, with the outcome in its slot.
pub fn interval_effect<Msg, ToMsg, T>(
    namespace: &str,
    duration: u64,
    to_msg: ToMsg,
    effect: Effect<Msg>,
) -> (subscription: Subscription<Msg>) where ToMsg: Fn(Capture<T>) -> Msg, T: Default
    requires
        accepts_default::<Capture<T>, Msg, ToMsg>(to_msg),
    ensures
        subscription matches Subscription::Interval(timer) && timer.runs(namespace@, duration)
            && (timer.msg matches SubscriptionMsg::Effectful { msg, effect: paired } && paired
            == effect && made_from_default::<Capture<T>, Msg, ToMsg>(to_msg, msg)),
{
    Subscription::Interval(
        Interval {
            id: join3(namespace, "-", decimal_string(duration).as_str()),
            duration,
            msg: SubscriptionMsg::effectful(to_msg, effect),
            queue_strategy: QueueStrategy::DropOlder,
        },
    )
}

} // verus!
