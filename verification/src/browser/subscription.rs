//! Descriptions of the event sources that the host keeps alive.

use crate::browser::effect::Effect;
use crate::browser::subscription::event_listener::EventListener;
use crate::browser::subscription::interval::Interval;
use crate::browser::value::accepts_default;
use crate::browser::value::made_from_default;
use crate::browser::value::pending_msg;
use vstd::prelude::*;

pub mod diff;
pub mod event_listener;
pub mod interval;
pub mod listener_id;

verus! {

/// A tree of subscriptions. The leaves name a source of events; `Batch` groups
/// them in order.
#[derive(Debug, PartialEq)]
pub enum Subscription<Msg> {
    /// No source. It keeps its place among its neighbours.
    NoOp,
    EventListener(EventListener<Msg>),
    Interval(Interval<Msg>),
    Batch(Vec<Subscription<Msg>>),
}

/// What a subscription delivers when it fires.
#[derive(Debug, PartialEq)]
pub enum SubscriptionMsg<Msg> {
    /// A message that is complete as it stands.
    Pure(Msg),
    /// A message with a slot to fill, and the effect whose outcome fills it.
    Effectful { msg: Msg, effect: Effect<Msg> },
}

impl<Msg: Clone> Clone for Subscription<Msg> {
    fn clone(&self) -> (copy: Self)
        decreases self,
    {
        match self {
            Subscription::NoOp => Subscription::NoOp,
            Subscription::EventListener(listener) => Subscription::EventListener(listener.clone()),
            Subscription::Interval(timer) => Subscription::Interval(timer.clone()),
            Subscription::Batch(members) => {
                let mut copies: Vec<Subscription<Msg>> = Vec::new();
                let mut i: usize = 0;
                while i < members.len()
                    invariant
                        i <= members.len(),
                        self matches Subscription::Batch(all) && all == members,
                    decreases members.len() - i,
                {
                    proof {
                        vstd::std_specs::vec::axiom_vec_index_decreases(*members, i as int);
                    }
                    copies.push(members[i].clone());
                    i += 1;
                }
                Subscription::Batch(copies)
            },
        }
    }
}

impl<Msg: Clone> Clone for SubscriptionMsg<Msg> {
    fn clone(&self) -> (copy: Self) {
        match self {
            SubscriptionMsg::Pure(msg) => SubscriptionMsg::Pure(msg.clone()),
            SubscriptionMsg::Effectful { msg, effect } => SubscriptionMsg::Effectful {
                msg: msg.clone(),
                effect: effect.clone(),
            },
        }
    }
}

impl<Msg> SubscriptionMsg<Msg> {
    pub fn pure(msg: Msg) -> (delivered: SubscriptionMsg<Msg>)
        ensures
            delivered == SubscriptionMsg::Pure(msg),
    {
        SubscriptionMsg::Pure(msg)
    }

    /// Pairs `effect` with the message that `to_msg` makes of a slot that is still
    /// to be filled.
    pub fn effectful<ToMsg, T>(to_msg: ToMsg, effect: Effect<Msg>) -> (delivered: SubscriptionMsg<
        Msg,
    >) where ToMsg: Fn(T) -> Msg, T: Default
        requires
            accepts_default::<T, Msg, ToMsg>(to_msg),
        ensures
            delivered matches SubscriptionMsg::Effectful { msg, effect: paired } && paired
                == effect && made_from_default::<T, Msg, ToMsg>(to_msg, msg),
    {
        SubscriptionMsg::Effectful { msg: pending_msg(to_msg), effect }
    }
}

/// The leaves of a row of trees, tree by tree.
pub open spec fn flatten_all<Msg>(subscriptions: Seq<Subscription<Msg>>) -> Seq<Subscription<Msg>>
    decreases subscriptions,
{
    if subscriptions.len() == 0 {
        Seq::empty()
    } else {
        subscriptions[0].flatten() + flatten_all(
            subscriptions.subrange(1, subscriptions.len() as int),
        )
    }
}

/// The leaves of the trees on a work stack, in the order in which they leave it:
/// the last tree first.
spec fn unwind<Msg>(stack: Seq<Subscription<Msg>>) -> Seq<Subscription<Msg>>
    decreases stack.len(),
{
    if stack.len() == 0 {
        Seq::empty()
    } else {
        stack.last().flatten() + unwind(stack.drop_last())
    }
}

/// The number of nodes in a row of trees.
spec fn weight_all<Msg>(subscriptions: Seq<Subscription<Msg>>) -> nat
    decreases subscriptions,
{
    if subscriptions.len() == 0 {
        0
    } else {
        subscriptions[0].weight() + weight_all(
            subscriptions.subrange(1, subscriptions.len() as int),
        )
    }
}

/// The number of nodes on a work stack.
spec fn stack_weight<Msg>(stack: Seq<Subscription<Msg>>) -> nat
    decreases stack.len(),
{
    if stack.len() == 0 {
        0
    } else {
        stack.last().weight() + stack_weight(stack.drop_last())
    }
}

proof fn lemma_push<Msg>(stack: Seq<Subscription<Msg>>, top: Subscription<Msg>)
    ensures
        stack_weight(stack.push(top)) == top.weight() + stack_weight(stack),
        unwind(stack.push(top)) == top.flatten() + unwind(stack),
{
    assert(stack.push(top).drop_last() =~= stack);
    assert(stack.push(top).last() == top);
}

impl<Msg> Subscription<Msg> {
    /// The leaves of the tree from left to right: a `Batch` gives the leaves of its
    /// members in their order, anything else is a leaf and gives itself.
    pub open spec fn flatten(self) -> Seq<Subscription<Msg>>
        decreases self,
    {
        match self {
            Subscription::Batch(subscriptions) => flatten_all(subscriptions@),
            _ => seq![self],
        }
    }

    /// The number of nodes in the tree.
    spec fn weight(self) -> nat
        decreases self,
    {
        match self {
            Subscription::Batch(subscriptions) => 1 + weight_all(subscriptions@),
            _ => 1,
        }
    }

    /// Flattens the tree into its leaves, from left to right. Every leaf is kept,
    /// `NoOp` too. A leaf's place in the result is its place in the order of
    /// registration.
    pub fn into_vec(self) -> (leaves: Vec<Subscription<Msg>>)
        ensures
            leaves@ == self.flatten(),
            forall|i: int| 0 <= i < leaves.len() ==> !(#[trigger] leaves[i] is Batch),
    {
        let ghost whole = self;
        let mut leaves: Vec<Subscription<Msg>> = Vec::new();
        let mut stack: Vec<Subscription<Msg>> = Vec::new();
        stack.push(self);
        proof {
            lemma_push(Seq::empty(), whole);
            assert(Seq::<Subscription<Msg>>::empty().push(whole) =~= stack@);
            assert(whole.flatten() + Seq::empty() =~= whole.flatten());
            assert(leaves@ + whole.flatten() =~= whole.flatten());
        }
        while stack.len() > 0
            invariant
                whole.flatten() == leaves@ + unwind(stack@),
                forall|i: int| 0 <= i < leaves.len() ==> !(#[trigger] leaves[i] is Batch),
            decreases stack_weight(stack@),
        {
            let ghost before = stack@;
            let top = stack.pop().unwrap();
            assert(stack@ == before.drop_last());
            match top {
                Subscription::Batch(mut children) => {
                    let ghost members = children@;
                    let ghost base = stack@;
                    proof {
                        assert(members.subrange(members.len() as int, members.len() as int)
                            =~= Seq::empty());
                        assert(children@ =~= members.subrange(0, members.len() as int));
                    }
                    while children.len() > 0
                        invariant
                            children.len() <= members.len(),
                            children@ == members.subrange(0, children.len() as int),
                            unwind(stack@) == flatten_all(
                                members.subrange(children.len() as int, members.len() as int),
                            ) + unwind(base),
                            stack_weight(stack@) == weight_all(
                                members.subrange(children.len() as int, members.len() as int),
                            ) + stack_weight(base),
                        decreases children.len(),
                    {
                        let ghost k = children.len() as int;
                        let ghost below = stack@;
                        let child = children.pop().unwrap();
                        stack.push(child);
                        proof {
                            assert(1 <= k <= members.len());
                            assert(child == members[k - 1]);
                            let rest = members.subrange(k - 1, members.len() as int);
                            assert(rest[0] == child);
                            assert(rest.subrange(1, rest.len() as int) =~= members.subrange(
                                k,
                                members.len() as int,
                            ));
                            lemma_push(below, child);
                            assert(below.push(child) =~= stack@);
                            assert(children@ =~= members.subrange(0, k - 1));
                            assert(unwind(stack@) =~= flatten_all(rest) + unwind(base));
                        }
                    }
                    proof {
                        assert(members.subrange(0, members.len() as int) =~= members);
                        lemma_push(base, top);
                        assert(base.push(top) =~= before);
                    }
                },
                leaf => {
                    proof {
                        assert(leaf.flatten() =~= seq![leaf]);
                        assert(leaves@.push(leaf) + unwind(stack@) =~= leaves@ + unwind(before));
                        lemma_push(stack@, leaf);
                        assert(stack@.push(leaf) =~= before);
                    }
                    leaves.push(leaf);
                },
            }
        }
        proof {
            assert(leaves@ + unwind(stack@) =~= leaves@);
        }
        leaves
    }
}

/// The subscription that names no source.
pub fn none<Msg>() -> (subscription: Subscription<Msg>)
    ensures
        subscription is NoOp,
{
    Subscription::NoOp
}

/// Groups subscriptions; their leaves are registered in the given order.
pub fn batch<Msg>(subscriptions: Vec<Subscription<Msg>>) -> (subscription: Subscription<Msg>)
    ensures
        subscription == Subscription::Batch(subscriptions),
{
    Subscription::Batch(subscriptions)
}

} // verus!
