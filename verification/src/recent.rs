//! The list of recently tracked issue keys: the latest few, oldest first.

use std::collections::VecDeque;
use vstd::prelude::*;
use crate::storage::texts;

verus! {

/// How many keys the recent list keeps.
pub const MAX_RECENT: usize = 5;

/// The last `MAX_RECENT` entries of `keys`, or all of them if there are
/// no more than that.
pub open spec fn latest(keys: Seq<Seq<char>>) -> Seq<Seq<char>> {
    if keys.len() > MAX_RECENT {
        keys.subrange(keys.len() - MAX_RECENT, keys.len() as int)
    } else {
        keys
    }
}

/// The recent list after `key` has been tracked: `key` comes last, and
/// the oldest entries leave until the list fits.
pub open spec fn recent_after(recent: Seq<Seq<char>>, key: Seq<char>) -> Seq<Seq<char>> {
    latest(recent.push(key))
}

/// The recent list after each of `keys` has been tracked, in order.
pub open spec fn recent_after_all(recent: Seq<Seq<char>>, keys: Seq<Seq<char>>) -> Seq<Seq<char>>
    decreases keys.len(),
{
    if keys.len() == 0 {
        recent
    } else {
        recent_after(recent_after_all(recent, keys.drop_last()), keys.last())
    }
}

/// After at least one key has been tracked, the recent list holds the
/// latest entries of the old list followed by the tracked keys.
pub proof fn lemma_recent_is_latest(recent: Seq<Seq<char>>, keys: Seq<Seq<char>>)
    requires
        keys.len() >= 1,
    ensures
        recent_after_all(recent, keys) == latest(recent + keys),
    decreases keys.len(),
{
    let before = keys.drop_last();
    assert(recent + keys =~= (recent + before).push(keys.last()));
    if before.len() == 0 {
        assert(recent + before =~= recent);
        assert(recent_after_all(recent, before) == recent);
    } else {
        lemma_recent_is_latest(recent, before);
        assert(latest(latest(recent + before).push(keys.last())) =~= latest(
            (recent + before).push(keys.last()),
        ));
    }
}

/// After five or more issues have been tracked the recent list holds
/// exactly the last five keys, the most recent last, whatever it held before.
pub proof fn law_recent_list_bound(recent: Seq<Seq<char>>, keys: Seq<Seq<char>>)
    requires
        keys.len() >= MAX_RECENT,
    ensures
        recent_after_all(recent, keys).len() == MAX_RECENT,
        recent_after_all(recent, keys) == keys.subrange(
            keys.len() - MAX_RECENT,
            keys.len() as int,
        ),
{
    lemma_recent_is_latest(recent, keys);
    assert(latest(recent + keys) =~= keys.subrange(keys.len() - MAX_RECENT, keys.len() as int));
}

/// Puts `key` at the end of the recent list and drops entries from the
/// front until no more than `MAX_RECENT` are left.
pub fn push_recent(recent: &mut VecDeque<String>, key: String)
    ensures
        texts(final(recent)@) == recent_after(texts(old(recent)@), key@),
{
    let ghost all = texts(old(recent)@).push(key@);
    recent.push_back(key);
    assert(texts(recent@) =~= all);
    while recent.len() > MAX_RECENT
        invariant
            recent@.len() <= all.len(),
            all.len() > MAX_RECENT ==> recent@.len() >= MAX_RECENT,
            all.len() <= MAX_RECENT ==> recent@.len() == all.len(),
            texts(recent@) == all.subrange(all.len() - recent@.len(), all.len() as int),
        decreases recent@.len(),
    {
        let ghost before = texts(recent@);
        let _ = recent.pop_front();
        assert(texts(recent@) =~= before.subrange(1, before.len() as int));
        assert(texts(recent@) =~= all.subrange(all.len() - recent@.len(), all.len() as int));
    }
    assert(texts(recent@) =~= latest(all));
}

} // verus!
