//! The occurrences that wait for the update loop.

use crate::browser::queue_strategy::QueueStrategy;
use crate::text::same_text;
use vstd::prelude::*;

verus! {

/// One firing of a listener or an interval: the id of its source and the message
/// that it delivers.
#[derive(Clone, Debug, PartialEq)]
pub struct Occurrence<Msg> {
    pub id: String,
    pub msg: Msg,
}

/// The occurrences that have been fired and not yet delivered, oldest first.
pub struct MsgQueue<Msg> {
    pending: Vec<Occurrence<Msg>>,
}

impl<Msg> View for MsgQueue<Msg> {
    type V = Seq<(Seq<char>, Msg)>;

    closed spec fn view(&self) -> Seq<(Seq<char>, Msg)> {
        Seq::new(self.pending@.len(), |i: int| (self.pending@[i].id@, self.pending@[i].msg))
    }
}

/// Whether an occurrence of `id` waits.
pub open spec fn waits<Msg>(pending: Seq<(Seq<char>, Msg)>, id: Seq<char>) -> bool {
    exists|k: int| 0 <= k < pending.len() && (#[trigger] pending[k]).0 == id
}

/// Whether the oldest occurrence of `id` that waits is at place `k`.
pub open spec fn is_oldest<Msg>(pending: Seq<(Seq<char>, Msg)>, id: Seq<char>, k: int) -> bool {
    &&& 0 <= k < pending.len()
    &&& pending[k].0 == id
    &&& forall|j: int| 0 <= j < k ==> (#[trigger] pending[j]).0 != id
}

/// The place of the oldest occurrence of `id` that waits.
pub open spec fn oldest<Msg>(pending: Seq<(Seq<char>, Msg)>, id: Seq<char>) -> int {
    choose|k: int| is_oldest(pending, id, k)
}

/// The queue after an occurrence has arrived. Under `Fifo` it joins the end.
/// Under `DropOlder` it takes the place of the oldest occurrence of its id that
/// waits, and joins the end when none does.
pub open spec fn enqueued<Msg>(
    pending: Seq<(Seq<char>, Msg)>,
    id: Seq<char>,
    strategy: QueueStrategy,
    msg: Msg,
) -> Seq<(Seq<char>, Msg)> {
    if strategy == QueueStrategy::DropOlder && waits(pending, id) {
        pending.update(oldest(pending, id), (id, msg))
    } else {
        pending.push((id, msg))
    }
}

/// The messages that wait for `id`, oldest first.
pub open spec fn waiting_for<Msg>(pending: Seq<(Seq<char>, Msg)>, id: Seq<char>) -> Seq<Msg>
    decreases pending.len(),
{
    if pending.len() == 0 {
        Seq::empty()
    } else if pending.last().0 == id {
        waiting_for(pending.drop_last(), id).push(pending.last().1)
    } else {
        waiting_for(pending.drop_last(), id)
    }
}

/// The oldest occurrence of an id is at one place only.
pub proof fn lemma_oldest_is_unique<Msg>(pending: Seq<(Seq<char>, Msg)>, id: Seq<char>, k: int)
    requires
        is_oldest(pending, id, k),
    ensures
        waits(pending, id),
        oldest(pending, id) == k,
{
    let chosen = oldest(pending, id);
    assert(is_oldest(pending, id, chosen));
    if chosen < k {
        assert(pending[chosen].0 != id);
    } else if k < chosen {
        assert(pending[k].0 != id);
    }
}

proof fn lemma_waiting_for_none<Msg>(pending: Seq<(Seq<char>, Msg)>, id: Seq<char>)
    ensures
        waits(pending, id) <==> waiting_for(pending, id).len() > 0,
    decreases pending.len(),
{
    if pending.len() > 0 {
        let rest = pending.drop_last();
        lemma_waiting_for_none(rest, id);
        if pending.last().0 == id {
            assert(pending[pending.len() - 1].0 == id);
        } else {
            if waits(pending, id) {
                let k = choose|k: int| 0 <= k < pending.len() && (#[trigger] pending[k]).0 == id;
                assert(rest[k].0 == id);
            }
            if waits(rest, id) {
                let k = choose|k: int| 0 <= k < rest.len() && (#[trigger] rest[k]).0 == id;
                assert(pending[k].0 == id);
            }
        }
    }
}

proof fn lemma_waiting_for_replaced<Msg>(
    pending: Seq<(Seq<char>, Msg)>,
    id: Seq<char>,
    k: int,
    msg: Msg,
)
    requires
        is_oldest(pending, id, k),
    ensures
        waiting_for(pending, id).len() > 0,
        waiting_for(pending.update(k, (id, msg)), id) == waiting_for(pending, id).update(0, msg),
    decreases pending.len(),
{
    let rest = pending.drop_last();
    let last = pending.last();
    let replaced = pending.update(k, (id, msg));
    lemma_waiting_for_none(rest, id);
    if k == pending.len() - 1 {
        assert(replaced.drop_last() =~= rest);
        assert(!waits(rest, id)) by {
            if waits(rest, id) {
                let j = choose|j: int| 0 <= j < rest.len() && (#[trigger] rest[j]).0 == id;
                assert(pending[j].0 == id);
            }
        }
        assert(waiting_for(rest, id) =~= Seq::empty());
        assert(waiting_for(replaced, id) =~= waiting_for(pending, id).update(0, msg));
    } else {
        assert(is_oldest(rest, id, k)) by {
            assert(rest[k] == pending[k]);
            assert forall|j: int| 0 <= j < k implies (#[trigger] rest[j]).0 != id by {
                assert(pending[j].0 != id);
            }
        }
        lemma_waiting_for_replaced(rest, id, k, msg);
        assert(replaced.drop_last() =~= rest.update(k, (id, msg)));
        assert(replaced.last() == last);
        assert(waiting_for(replaced, id) =~= waiting_for(pending, id).update(0, msg));
    }
}

proof fn lemma_waiting_for_others<Msg>(
    pending: Seq<(Seq<char>, Msg)>,
    id: Seq<char>,
    k: int,
    msg: Msg,
    other: Seq<char>,
)
    requires
        0 <= k < pending.len(),
        pending[k].0 == id,
        other != id,
    ensures
        waiting_for(pending.update(k, (id, msg)), other) == waiting_for(pending, other),
    decreases pending.len(),
{
    let rest = pending.drop_last();
    let replaced = pending.update(k, (id, msg));
    if k == pending.len() - 1 {
        assert(replaced.drop_last() =~= rest);
    } else {
        lemma_waiting_for_others(rest, id, k, msg, other);
        assert(replaced.drop_last() =~= rest.update(k, (id, msg)));
        assert(replaced.last() == pending.last());
    }
}

/// What an arrival does to the messages that wait for each id. Under `Fifo` the
/// new message joins those of its id, and none is lost. Under `DropOlder` it
/// replaces the oldest of them, so that a source with at most one message
/// waiting still has exactly one, the new one. The messages of every other id
/// stay as they are.
pub proof fn lemma_enqueued_per_id<Msg>(
    pending: Seq<(Seq<char>, Msg)>,
    id: Seq<char>,
    strategy: QueueStrategy,
    msg: Msg,
    other: Seq<char>,
)
    requires
        other != id,
    ensures
        strategy == QueueStrategy::Fifo ==> waiting_for(enqueued(pending, id, strategy, msg), id)
            == waiting_for(pending, id).push(msg),
        strategy == QueueStrategy::DropOlder && waiting_for(pending, id).len() == 0
            ==> waiting_for(enqueued(pending, id, strategy, msg), id) == seq![msg],
        strategy == QueueStrategy::DropOlder && waiting_for(pending, id).len() > 0
            ==> waiting_for(enqueued(pending, id, strategy, msg), id) == waiting_for(
            pending,
            id,
        ).update(0, msg),
        strategy == QueueStrategy::DropOlder && waiting_for(pending, id).len() <= 1
            ==> waiting_for(enqueued(pending, id, strategy, msg), id) == seq![msg],
        waiting_for(enqueued(pending, id, strategy, msg), other) == waiting_for(pending, other),
{
    lemma_waiting_for_none(pending, id);
    let after = enqueued(pending, id, strategy, msg);
    if strategy == QueueStrategy::DropOlder && waits(pending, id) {
        let k = oldest(pending, id);
        lemma_oldest_exists(pending, id);
        lemma_waiting_for_replaced(pending, id, k, msg);
        lemma_waiting_for_others(pending, id, k, msg, other);
        if waiting_for(pending, id).len() <= 1 {
            assert(waiting_for(pending, id).update(0, msg) =~= seq![msg]);
        }
    } else {
        assert(after.drop_last() =~= pending);
        assert(after.last() == (id, msg));
        if waiting_for(pending, id).len() == 0 {
            assert(waiting_for(pending, id).push(msg) =~= seq![msg]);
        }
    }
}

proof fn lemma_oldest_exists<Msg>(pending: Seq<(Seq<char>, Msg)>, id: Seq<char>)
    requires
        waits(pending, id),
    ensures
        is_oldest(pending, id, oldest(pending, id)),
    decreases pending.len(),
{
    let rest = pending.drop_last();
    if waits(rest, id) {
        lemma_oldest_exists(rest, id);
        let k = oldest(rest, id);
        assert(is_oldest(pending, id, k)) by {
            assert(pending[k] == rest[k]);
            assert forall|j: int| 0 <= j < k implies (#[trigger] pending[j]).0 != id by {
                assert(rest[j].0 != id);
            }
        }
    } else {
        let w = choose|w: int| 0 <= w < pending.len() && (#[trigger] pending[w]).0 == id;
        if w < pending.len() - 1 {
            assert(rest[w].0 == id);
        }
        let k = pending.len() - 1;
        assert(is_oldest(pending, id, k)) by {
            assert forall|j: int| 0 <= j < k implies (#[trigger] pending[j]).0 != id by {
                if pending[j].0 == id {
                    assert(rest[j].0 == id);
                }
            }
        }
    }
}

impl<Msg> MsgQueue<Msg> {
    /// A queue in which nothing waits.
    pub fn new() -> (queue: MsgQueue<Msg>)
        ensures
            queue@ == Seq::<(Seq<char>, Msg)>::empty(),
    {
        let queue = MsgQueue { pending: Vec::new() };
        assert(queue@ =~= Seq::empty());
        queue
    }

    /// The number of occurrences that wait.
    pub fn len(&self) -> (n: usize)
        ensures
            n == self@.len(),
    {
        self.pending.len()
    }

    pub fn is_empty(&self) -> (r: bool)
        ensures
            r == (self@.len() == 0),
    {
        self.pending.len() == 0
    }

    /// Takes in an occurrence of the source `id`, whose strategy is `strategy`.
    pub fn enqueue(&mut self, id: &str, strategy: QueueStrategy, msg: Msg)
        ensures
            final(self)@ == enqueued(old(self)@, id@, strategy, msg),
    {
        let ghost before = self@;
        if strategy == QueueStrategy::DropOlder {
            let mut i: usize = 0;
            while i < self.pending.len()
                invariant
                    i <= self.pending.len(),
                    self@ == before,
                    before == old(self)@,
                    strategy == QueueStrategy::DropOlder,
                    forall|j: int| 0 <= j < i ==> (#[trigger] before[j]).0 != id@,
                decreases self.pending.len() - i,
            {
                if same_text(self.pending[i].id.as_str(), id) {
                    proof {
                        assert(before[i as int].0 == id@);
                        lemma_oldest_is_unique(before, id@, i as int);
                    }
                    self.pending[i] = Occurrence { id: String::from_str(id), msg };
                    assert(self@ =~= before.update(i as int, (id@, msg)));
                    return ;
                }
                i += 1;
            }
            assert(!waits(before, id@));
        }
        self.pending.push(Occurrence { id: String::from_str(id), msg });
        assert(self@ =~= before.push((id@, msg)));
    }

    /// Takes out the occurrence that has waited longest, if any waits.
    pub fn dequeue(&mut self) -> (next: Option<Occurrence<Msg>>)
        ensures
            old(self)@.len() == 0 ==> next is None && final(self)@ == old(self)@,
            old(self)@.len() > 0 ==> (next matches Some(occurrence) && (
                occurrence.id@,
                occurrence.msg,
            ) == old(self)@[0] && final(self)@ == old(self)@.drop_first()),
    {
        if self.pending.len() == 0 {
            None
        } else {
            let ghost before = self@;
            let occurrence = self.pending.remove(0);
            assert(self@ =~= before.drop_first());
            assert((occurrence.id@, occurrence.msg) == before[0]);
            Some(occurrence)
        }
    }
}

} // verus!
