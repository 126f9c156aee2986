//! Descriptions of the side effects that the host is asked to perform.

use crate::browser::effect::browser::Browser;
use crate::browser::effect::clipboard::Clipboard;
use crate::browser::effect::console::Console;
use crate::browser::effect::dom::Dom;
use crate::browser::effect::effectful_msg::EffectfulMsg;
use crate::browser::effect::local_storage::LocalStorage;
use crate::browser::effect::navigation::Navigation;
use crate::browser::effect::session_storage::SessionStorage;
use crate::browser::effect::time::Time;
use crate::browser::value::JsonValue;
use vstd::prelude::*;

pub mod browser;
pub mod clipboard;
pub mod console;
pub mod dom;
pub mod effectful_msg;
pub mod local_storage;
pub mod navigation;
pub mod session_storage;
pub mod time;

verus! {

/// A tree of effects. The leaves say what to do; `Batch` groups them in order.
#[derive(Debug, PartialEq)]
pub enum Effect<Msg> {
    /// Nothing to do. It keeps its place among its neighbours.
    NoOp,
    EffectfulMsg(Box<EffectfulMsg<Msg>>),
    Dom(Dom),
    Time(Time),
    Navigation(Navigation),
    LocalStorage(LocalStorage),
    SessionStorage(SessionStorage),
    Console(Console),
    Clipboard(Clipboard),
    Browser(Browser),
    /// An effect that the application defines and the host knows how to perform.
    Custom(JsonValue),
    Batch(Vec<Effect<Msg>>),
}

impl<Msg: Clone> Clone for Effect<Msg> {
    fn clone(&self) -> (copy: Self)
        decreases self,
    {
        match self {
            Effect::NoOp => Effect::NoOp,
            Effect::EffectfulMsg(paired) => Effect::EffectfulMsg(
                Box::new(EffectfulMsg { msg: paired.msg.clone(), effect: paired.effect.clone() }),
            ),
            Effect::Dom(dom) => Effect::Dom(dom.clone()),
            Effect::Time(time) => Effect::Time(time.clone()),
            Effect::Navigation(navigation) => Effect::Navigation(navigation.clone()),
            Effect::LocalStorage(storage) => Effect::LocalStorage(storage.clone()),
            Effect::SessionStorage(storage) => Effect::SessionStorage(storage.clone()),
            Effect::Console(console) => Effect::Console(console.clone()),
            Effect::Clipboard(clipboard) => Effect::Clipboard(clipboard.clone()),
            Effect::Browser(browser) => Effect::Browser(browser.clone()),
            Effect::Custom(value) => Effect::Custom(value.clone()),
            Effect::Batch(members) => {
                let mut copies: Vec<Effect<Msg>> = Vec::new();
                let mut i: usize = 0;
                while i < members.len()
                    invariant
                        i <= members.len(),
                        self matches Effect::Batch(all) && all == members,
                    decreases members.len() - i,
                {
                    proof {
                        vstd::std_specs::vec::axiom_vec_index_decreases(*members, i as int);
                    }
                    copies.push(members[i].clone());
                    i += 1;
                }
                Effect::Batch(copies)
            },
        }
    }
}

/// The leaves of a row of trees, tree by tree.
pub open spec fn flatten_all<Msg>(effects: Seq<Effect<Msg>>) -> Seq<Effect<Msg>>
    decreases effects,
{
    if effects.len() == 0 {
        Seq::empty()
    } else {
        effects[0].flatten() + flatten_all(effects.subrange(1, effects.len() as int))
    }
}

/// The leaves of the trees on a work stack, in the order in which they leave it:
/// the last tree first.
spec fn unwind<Msg>(stack: Seq<Effect<Msg>>) -> Seq<Effect<Msg>>
    decreases stack.len(),
{
    if stack.len() == 0 {
        Seq::empty()
    } else {
        stack.last().flatten() + unwind(stack.drop_last())
    }
}

/// The number of nodes in a row of trees.
spec fn weight_all<Msg>(effects: Seq<Effect<Msg>>) -> nat
    decreases effects,
{
    if effects.len() == 0 {
        0
    } else {
        effects[0].weight() + weight_all(effects.subrange(1, effects.len() as int))
    }
}

impl<Msg> Effect<Msg> {
    /// The leaves of the tree from left to right: a `Batch` gives the leaves of its
    /// members in their order, anything else is a leaf and gives itself.
    pub open spec fn flatten(self) -> Seq<Effect<Msg>>
        decreases self,
    {
        match self {
            Effect::Batch(effects) => flatten_all(effects@),
            _ => seq![self],
        }
    }

    /// The number of nodes in the tree.
    spec fn weight(self) -> nat
        decreases self,
    {
        match self {
            Effect::Batch(effects) => 1 + weight_all(effects@),
            _ => 1,
        }
    }

    /// Flattens the tree into its leaves, from left to right. Every leaf is kept,
    /// `NoOp` too, so that a leaf's position tells which effect it is.
    pub fn into_vec(self) -> (leaves: Vec<Effect<Msg>>)
        ensures
            leaves@ == self.flatten(),
            forall|i: int| 0 <= i < leaves.len() ==> !(#[trigger] leaves[i] is Batch),
    {
        let ghost whole = self;
        let mut leaves: Vec<Effect<Msg>> = Vec::new();
        let mut stack: Vec<Effect<Msg>> = Vec::new();
        stack.push(self);
        proof {
            lemma_weight_push(Seq::empty(), whole);
            assert(Seq::<Effect<Msg>>::empty().push(whole) =~= stack@);
            assert(whole.flatten() + Seq::empty() =~= whole.flatten());
            assert(leaves@ + whole.flatten() =~= whole.flatten());
        }
        while stack.len() > 0
            invariant
                whole.flatten() == leaves@ + unwind(stack@),
                forall|i: int| 0 <= i < leaves.len() ==> !(#[trigger] leaves[i] is Batch),
            decreases stack_weight(stack@),
        {
            let ghost before = stack@;
            let top = stack.pop().unwrap();
            assert(stack@ == before.drop_last());
            match top {
                Effect::Batch(mut children) => {
                    let ghost members = children@;
                    let ghost base = stack@;
                    proof {
                        assert(members.subrange(members.len() as int, members.len() as int)
                            =~= Seq::empty());
                        assert(children@ =~= members.subrange(0, members.len() as int));
                    }
                    while children.len() > 0
                        invariant
                            children.len() <= members.len(),
                            children@ == members.subrange(0, children.len() as int),
                            unwind(stack@) == flatten_all(
                                members.subrange(children.len() as int, members.len() as int),
                            ) + unwind(base),
                            stack_weight(stack@) == weight_all(
                                members.subrange(children.len() as int, members.len() as int),
                            ) + stack_weight(base),
                        decreases children.len(),
                    {
                        let ghost k = children.len() as int;
                        let ghost below = stack@;
                        let child = children.pop().unwrap();
                        stack.push(child);
                        proof {
                            assert(1 <= k <= members.len());
                            assert(child == members[k - 1]);
                            let rest = members.subrange(k - 1, members.len() as int);
                            assert(rest[0] == child);
                            assert(rest.subrange(1, rest.len() as int) =~= members.subrange(
                                k,
                                members.len() as int,
                            ));
                            assert(stack@.drop_last() =~= below);
                            assert(stack@.last() == child);
                            lemma_weight_push(below, child);
                            assert(below.push(child) =~= stack@);
                            assert(children@ =~= members.subrange(0, k - 1));
                            assert(unwind(stack@) =~= flatten_all(rest) + unwind(base));
                        }
                    }
                    proof {
                        assert(members.subrange(0, members.len() as int) =~= members);
                        lemma_weight_push(base, top);
                        assert(base.push(top) =~= before);
                    }
                },
                leaf => {
                    proof {
                        assert(leaf.flatten() =~= seq![leaf]);
                        assert(leaves@.push(leaf) + unwind(stack@) =~= leaves@ + unwind(before));
                        lemma_weight_push(stack@, leaf);
                        assert(stack@.push(leaf) =~= before);
                    }
                    leaves.push(leaf);
                },
            }
        }
        proof {
            assert(leaves@ + unwind(stack@) =~= leaves@);
        }
        leaves
    }
}

/// The number of nodes on a work stack.
spec fn stack_weight<Msg>(stack: Seq<Effect<Msg>>) -> nat
    decreases stack.len(),
{
    if stack.len() == 0 {
        0
    } else {
        stack.last().weight() + stack_weight(stack.drop_last())
    }
}

proof fn lemma_weight_push<Msg>(stack: Seq<Effect<Msg>>, top: Effect<Msg>)
    ensures
        stack_weight(stack.push(top)) == top.weight() + stack_weight(stack),
        unwind(stack.push(top)) == top.flatten() + unwind(stack),
{
    assert(stack.push(top).drop_last() =~= stack);
    assert(stack.push(top).last() == top);
}

/// Flattening keeps the order of a row: the leaves of two rows put one after the
/// other are the leaves of the first row, then those of the second.
pub proof fn lemma_flatten_all_in_order<Msg>(first: Seq<Effect<Msg>>, second: Seq<Effect<Msg>>)
    ensures
        flatten_all(first + second) == flatten_all(first) + flatten_all(second),
    decreases first.len(),
{
    let whole = first + second;
    if first.len() == 0 {
        assert(whole =~= second);
        assert(flatten_all(first) + flatten_all(second) =~= flatten_all(second));
    } else {
        let rest = first.subrange(1, first.len() as int);
        lemma_flatten_all_in_order(rest, second);
        assert(whole.subrange(1, whole.len() as int) =~= rest + second);
        assert(whole[0] == first[0]);
        assert(flatten_all(whole) =~= flatten_all(first) + flatten_all(second));
    }
}

/// A row of leaves is flat already.
pub proof fn lemma_flatten_all_of_leaves<Msg>(leaves: Seq<Effect<Msg>>)
    requires
        forall|i: int| 0 <= i < leaves.len() ==> !(#[trigger] leaves[i] is Batch),
    ensures
        flatten_all(leaves) == leaves,
    decreases leaves.len(),
{
    if leaves.len() > 0 {
        let rest = leaves.subrange(1, leaves.len() as int);
        assert forall|i: int| 0 <= i < rest.len() implies !(#[trigger] rest[i] is Batch) by {
            assert(rest[i] == leaves[i + 1]);
        }
        lemma_flatten_all_of_leaves(rest);
        assert(!(leaves[0] is Batch));
        assert(leaves[0].flatten() =~= seq![leaves[0]]);
        assert(flatten_all(leaves) =~= leaves);
    } else {
        assert(flatten_all(leaves) =~= leaves);
    }
}

/// Flattening goes into a batch within a batch and keeps the order: a batch of
/// the batch of the leaves `a` and `b`, and the leaf `c`, has the leaves `a`,
/// `b`, `c`.
pub proof fn lemma_flatten_nested_batch<Msg>(
    tree: Effect<Msg>,
    a: Effect<Msg>,
    b: Effect<Msg>,
    c: Effect<Msg>,
)
    requires
        !(a is Batch),
        !(b is Batch),
        !(c is Batch),
        tree matches Effect::Batch(outer) && outer@.len() == 2 && outer@[1] == c && (
        outer@[0] matches Effect::Batch(inner) && inner@ == seq![a, b]),
    ensures
        tree.flatten() == seq![a, b, c],
{
    let outer = tree->Batch_0@;
    let inner = outer[0]->Batch_0@;
    lemma_flatten_all_of_leaves(inner);
    lemma_flatten_all_of_leaves(seq![c]);
    assert(outer =~= seq![outer[0]] + seq![c]);
    lemma_flatten_all_in_order(seq![outer[0]], seq![c]);
    assert(seq![outer[0]].subrange(1, 1) =~= Seq::empty());
    assert(flatten_all(Seq::<Effect<Msg>>::empty()) =~= Seq::empty());
    assert(flatten_all(seq![outer[0]]) =~= outer[0].flatten() + Seq::empty());
    assert(tree.flatten() =~= seq![a, b, c]);
}

/// No leaf of a tree is a `Batch`.
pub proof fn lemma_leaves_are_not_batches<Msg>(effect: Effect<Msg>)
    ensures
        forall|i: int|
            0 <= i < effect.flatten().len() ==> !(#[trigger] effect.flatten()[i] is Batch),
    decreases effect,
{
    if let Effect::Batch(effects) = effect {
        lemma_leaves_of_all_are_not_batches(effects@);
    }
}

proof fn lemma_leaves_of_all_are_not_batches<Msg>(effects: Seq<Effect<Msg>>)
    ensures
        forall|i: int|
            0 <= i < flatten_all(effects).len() ==> !(#[trigger] flatten_all(effects)[i] is Batch),
    decreases effects,
{
    if effects.len() > 0 {
        lemma_leaves_are_not_batches(effects[0]);
        lemma_leaves_of_all_are_not_batches(effects.subrange(1, effects.len() as int));
    }
}

/// The effect that does nothing.
pub fn none<Msg>() -> (effect: Effect<Msg>)
    ensures
        effect is NoOp,
{
    Effect::NoOp
}

/// Groups effects; the host performs their leaves in the given order.
pub fn batch<Msg>(effects: Vec<Effect<Msg>>) -> (effect: Effect<Msg>)
    ensures
        effect == Effect::Batch(effects),
{
    Effect::Batch(effects)
}

/// An effect of the application's own, described by a JSON value.
pub fn custom<Msg>(effect: JsonValue) -> (custom: Effect<Msg>)
    ensures
        custom == Effect::<Msg>::Custom(effect),
{
    Effect::Custom(effect)
}

} // verus!
