//! What the host has to change when the page's subscriptions change.

use crate::browser::subscription::Subscription;
use crate::text::same_text;
use vstd::prelude::*;

verus! {

/// The texts of a row of strings.
pub open spec fn texts(ids: Seq<String>) -> Seq<Seq<char>> {
    Seq::new(ids.len(), |i: int| ids[i]@)
}

/// The id of a leaf that names a source of events.
pub open spec fn source_id<Msg>(leaf: Subscription<Msg>) -> Option<Seq<char>> {
    match leaf {
        Subscription::EventListener(listener) => Some(listener.id@),
        Subscription::Interval(timer) => Some(timer.id@),
        _ => None,
    }
}

/// The ids of the sources among the first `n` leaves, in the order of registration.
pub open spec fn ids_of<Msg>(leaves: Seq<Subscription<Msg>>, n: int) -> Seq<Seq<char>>
    decreases n,
{
    if n <= 0 {
        Seq::empty()
    } else if n <= leaves.len() && source_id(leaves[n - 1]) is Some {
        ids_of(leaves, n - 1).push(source_id(leaves[n - 1])->Some_0)
    } else {
        ids_of(leaves, n - 1)
    }
}

/// Those of the first `n` of `ids` that are not among `others`, in their order.
pub open spec fn missing_from(ids: Seq<Seq<char>>, others: Seq<Seq<char>>, n: int) -> Seq<
    Seq<char>,
>
    decreases n,
{
    if n <= 0 {
        Seq::empty()
    } else if n <= ids.len() && !others.contains(ids[n - 1]) {
        missing_from(ids, others, n - 1).push(ids[n - 1])
    } else {
        missing_from(ids, others, n - 1)
    }
}

/// What changes between two rows of ids: an id is in the result exactly if it is
/// in `ids` and not among `others`. An id that is in both rows is in no result,
/// whichever way round the rows are compared: its source is left alone.
pub proof fn lemma_missing_from_holds_the_new(
    ids: Seq<Seq<char>>,
    others: Seq<Seq<char>>,
    n: int,
)
    requires
        0 <= n <= ids.len(),
    ensures
        forall|id: Seq<char>|
            #[trigger] missing_from(ids, others, n).contains(id) <==> ids.subrange(0, n).contains(
                id,
            ) && !others.contains(id),
    decreases n,
{
    let now = missing_from(ids, others, n);
    if n > 0 {
        lemma_missing_from_holds_the_new(ids, others, n - 1);
        let before = missing_from(ids, others, n - 1);
        let last = ids[n - 1];
        let head = ids.subrange(0, n - 1);
        let all = ids.subrange(0, n);
        assert forall|id: Seq<char>| #[trigger]
            now.contains(id) <==> all.contains(id) && !others.contains(id) by {
            if now.contains(id) {
                let i = choose|i: int| 0 <= i < now.len() && now[i] == id;
                if i < before.len() {
                    assert(before[i] == id);
                    assert(before.contains(id));
                    let j = choose|j: int| 0 <= j < head.len() && head[j] == id;
                    assert(all[j] == id);
                } else {
                    assert(id == last);
                    assert(all[n - 1] == id);
                }
            }
            if all.contains(id) && !others.contains(id) {
                let j = choose|j: int| 0 <= j < all.len() && all[j] == id;
                if j < n - 1 {
                    assert(head[j] == id);
                    assert(before.contains(id));
                    let i = choose|i: int| 0 <= i < before.len() && before[i] == id;
                    assert(now[i] == id);
                } else {
                    assert(now == before.push(last));
                    assert(now[before.len() as int] == id);
                }
            }
        }
    } else {
        assert(now =~= Seq::empty());
        assert(ids.subrange(0, n) =~= Seq::empty());
    }
}

/// What the host has to do to get from the sources that run to the sources
/// that are wanted.
#[derive(Clone, Debug, PartialEq, Eq)]
pub struct Changes {
    /// The ids that are wanted and do not run yet.
    pub install: Vec<String>,
    /// The ids that run and are wanted no longer.
    pub tear_down: Vec<String>,
}

/// The ids of the sources among flattened subscriptions, in the order of registration.
pub fn source_ids<Msg>(leaves: &Vec<Subscription<Msg>>) -> (ids: Vec<String>)
    ensures
        texts(ids@) == ids_of(leaves@, leaves@.len() as int),
{
    let mut ids: Vec<String> = Vec::new();
    let mut i: usize = 0;
    assert(texts(ids@) =~= ids_of(leaves@, 0));
    while i < leaves.len()
        invariant
            i <= leaves.len(),
            texts(ids@) == ids_of(leaves@, i as int),
        decreases leaves.len() - i,
    {
        let ghost before = texts(ids@);
        match &leaves[i] {
            Subscription::EventListener(listener) => {
                ids.push(listener.id.clone());
                assert(texts(ids@) =~= before.push(listener.id@));
            },
            Subscription::Interval(timer) => {
                ids.push(timer.id.clone());
                assert(texts(ids@) =~= before.push(timer.id@));
            },
            _ => {},
        }
        i += 1;
    }
    ids
}

/// Whether `id` is among `ids`.
pub fn has_id(ids: &Vec<String>, id: &str) -> (r: bool)
    ensures
        r == texts(ids@).contains(id@),
{
    let mut i: usize = 0;
    while i < ids.len()
        invariant
            i <= ids.len(),
            forall|j: int| 0 <= j < i ==> texts(ids@)[j] != id@,
        decreases ids.len() - i,
    {
        if same_text(ids[i].as_str(), id) {
            assert(texts(ids@)[i as int] == id@);
            return true;
        }
        i += 1;
    }
    false
}

fn not_among(ids: &Vec<String>, others: &Vec<String>) -> (missing: Vec<String>)
    ensures
        texts(missing@) == missing_from(texts(ids@), texts(others@), ids@.len() as int),
{
    let mut missing: Vec<String> = Vec::new();
    let mut i: usize = 0;
    assert(texts(missing@) =~= missing_from(texts(ids@), texts(others@), 0));
    while i < ids.len()
        invariant
            i <= ids.len(),
            texts(missing@) == missing_from(texts(ids@), texts(others@), i as int),
        decreases ids.len() - i,
    {
        let ghost before = texts(missing@);
        assert(texts(ids@)[i as int] == ids[i as int]@);
        if !has_id(others, ids[i].as_str()) {
            missing.push(ids[i].clone());
            assert(texts(missing@) =~= before.push(ids[i as int]@));
        }
        i += 1;
    }
    missing
}

/// Compares the ids that are wanted with the ids that run. The ids that are
/// only wanted are to be installed and the ids that only run are to be torn
/// down, each in its order; what is in both is left running.
pub fn diff(running: &Vec<String>, wanted: &Vec<String>) -> (changes: Changes)
    ensures
        texts(changes.install@) == missing_from(
            texts(wanted@),
            texts(running@),
            wanted@.len() as int,
        ),
        texts(changes.tear_down@) == missing_from(
            texts(running@),
            texts(wanted@),
            running@.len() as int,
        ),
{
    Changes { install: not_among(wanted, running), tear_down: not_among(running, wanted) }
}

} // verus!
