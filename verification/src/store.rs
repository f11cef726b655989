//! The session store: an association list from users to session
//! records, abstracted as a `Map` for specification purposes.

use vstd::prelude::*;

use crate::ids::ActorId;
use crate::session::SessionInfo;

verus! {

/// The map an association list denotes; later entries would win, though
/// the store keeps its keys unique.
pub open spec fn map_of(entries: Seq<(ActorId, SessionInfo)>) -> Map<ActorId, SessionInfo>
    decreases entries.len(),
{
    if entries.len() == 0 {
        Map::empty()
    } else {
        map_of(entries.drop_last()).insert(entries.last().0, entries.last().1)
    }
}

/// No user appears twice.
pub open spec fn keys_unique(entries: Seq<(ActorId, SessionInfo)>) -> bool {
    forall|i: int, j: int|
        0 <= i < j < entries.len() ==> (#[trigger] entries[i]).0 != (#[trigger] entries[j]).0
}

/// A user is in the denoted map exactly when some entry carries it.
pub proof fn lemma_map_of_dom(entries: Seq<(ActorId, SessionInfo)>, user: ActorId)
    ensures
        map_of(entries).dom().contains(user) <==> exists|i: int|
            0 <= i < entries.len() && (#[trigger] entries[i]).0 == user,
    decreases entries.len(),
{
    if entries.len() > 0 {
        lemma_map_of_dom(entries.drop_last(), user);
        if entries.last().0 != user && map_of(entries).dom().contains(user) {
            let i = choose|i: int|
                0 <= i < entries.drop_last().len() && (#[trigger] entries.drop_last()[i]).0 == user;
            assert(entries[i].0 == user);
        }
        if exists|i: int| 0 <= i < entries.len() && (#[trigger] entries[i]).0 == user {
            let i = choose|i: int| 0 <= i < entries.len() && (#[trigger] entries[i]).0 == user;
            if i < entries.len() - 1 {
                assert(entries.drop_last()[i].0 == user);
            }
        }
    }
}

/// With unique keys, the entry at any index is what the map holds for
/// its user.
pub proof fn lemma_map_of_index(entries: Seq<(ActorId, SessionInfo)>, i: int)
    requires
        keys_unique(entries),
        0 <= i < entries.len(),
    ensures
        map_of(entries).dom().contains(entries[i].0),
        map_of(entries)[entries[i].0] == entries[i].1,
    decreases entries.len(),
{
    if i == entries.len() - 1 {
    } else {
        assert(keys_unique(entries.drop_last()));
        assert(entries.drop_last()[i] == entries[i]);
        lemma_map_of_index(entries.drop_last(), i);
        assert(entries.last().0 != entries[i].0);
    }
}

/// Appending an entry for a fresh user extends the denoted map.
pub proof fn lemma_map_of_push(entries: Seq<(ActorId, SessionInfo)>, user: ActorId, s: SessionInfo)
    ensures
        map_of(entries.push((user, s))) == map_of(entries).insert(user, s),
{
    assert(entries.push((user, s)).drop_last() =~= entries);
}

/// Replacing the record at an index updates the denoted map at that
/// entry's user and nowhere else.
pub proof fn lemma_map_of_update(entries: Seq<(ActorId, SessionInfo)>, i: int, s: SessionInfo)
    requires
        keys_unique(entries),
        0 <= i < entries.len(),
    ensures
        map_of(entries.update(i, (entries[i].0, s))) == map_of(entries).insert(entries[i].0, s),
    decreases entries.len(),
{
    let user = entries[i].0;
    let updated = entries.update(i, (user, s));
    if i == entries.len() - 1 {
        assert(updated.drop_last() =~= entries.drop_last());
        assert(map_of(updated) =~= map_of(entries).insert(user, s));
    } else {
        assert(keys_unique(entries.drop_last()));
        assert(entries.drop_last()[i] == entries[i]);
        lemma_map_of_update(entries.drop_last(), i, s);
        assert(updated.drop_last() =~= entries.drop_last().update(i, (user, s)));
        assert(updated.last() == entries.last());
        // the untouched last entry carries a different user, so the two
        // insertions commute
        assert(entries.last().0 != user);
        assert(map_of(entries.drop_last()).insert(user, s).insert(entries.last().0, entries.last().1)
            =~= map_of(entries.drop_last()).insert(entries.last().0, entries.last().1).insert(
            user,
            s,
        ));
    }
}

/// Updating an entry's record, or appending one for a fresh user, keeps
/// the keys unique.
pub proof fn lemma_keys_unique_after(entries: Seq<(ActorId, SessionInfo)>, user: ActorId, s: SessionInfo)
    requires
        keys_unique(entries),
    ensures
        (forall|i: int| 0 <= i < entries.len() ==> (#[trigger] entries[i]).0 != user)
            ==> keys_unique(entries.push((user, s))),
        forall|i: int|
            0 <= i < entries.len() && (#[trigger] entries[i]).0 == user ==> keys_unique(
                entries.update(i, (user, s)),
            ),
{
}

/// Finds the entry for a user, if one exists.
pub fn find_session(entries: &Vec<(ActorId, SessionInfo)>, user: ActorId) -> (r: Option<usize>)
    ensures
        match r {
            Some(i) => i < entries@.len() && entries@[i as int].0 == user,
            None => forall|i: int| 0 <= i < entries@.len() ==> (#[trigger] entries@[i]).0 != user,
        },
{
    let n = entries.len();
    let mut i: usize = 0;
    while i < n
        invariant
            n == entries@.len(),
            0 <= i <= n,
            forall|j: int| 0 <= j < i ==> (#[trigger] entries@[j]).0 != user,
        decreases n - i,
    {
        if entries[i].0 == user {
            return Some(i);
        }
        i += 1;
    }
    None
}

} // verus!
