//! The session state store: one [`SessionState`] per identity.
//!
//! The store is an association list in which no identity occurs twice. Its
//! view is the map from the identities that have been written to their
//! states; an identity that has never been written reads as having no
//! activity.

use crate::session::event_for;
use crate::session::SessionState;
use crate::session::Snapshot;
use crate::session::TransitionEvent;
use vstd::prelude::*;

verus! {

struct SessionEntry {
    identity: String,
    state: SessionState,
}

/// The state that `identity` reads as in `states`: what was written last, or
/// no activity where nothing was written yet.
pub open spec fn state_in(
    states: Map<Seq<char>, Option<Seq<char>>>,
    identity: Seq<char>,
) -> Option<Seq<char>> {
    if states.dom().contains(identity) {
        states[identity]
    } else {
        None
    }
}

/// Per-identity session state, keyed by identity.
pub struct SessionStore {
    entries: Vec<SessionEntry>,
}

/// The map that a list of entries stands for; a later entry would override an
/// earlier one for the same identity.
spec fn entries_map(entries: Seq<SessionEntry>) -> Map<Seq<char>, Option<Seq<char>>>
    decreases entries.len(),
{
    if entries.len() == 0 {
        Map::empty()
    } else {
        entries_map(entries.drop_last()).insert(entries.last().identity@, entries.last().state@)
    }
}

/// No identity occurs twice.
spec fn distinct(entries: Seq<SessionEntry>) -> bool {
    forall|i: int, j: int|
        0 <= i < j < entries.len() ==> (#[trigger] entries[i]).identity@ != (
        #[trigger] entries[j]).identity@
}

proof fn lemma_absent(entries: Seq<SessionEntry>, key: Seq<char>)
    requires
        forall|i: int| 0 <= i < entries.len() ==> (#[trigger] entries[i]).identity@ != key,
    ensures
        !entries_map(entries).dom().contains(key),
    decreases entries.len(),
{
    if entries.len() > 0 {
        let front = entries.drop_last();
        assert forall|i: int| 0 <= i < front.len() implies (#[trigger] front[i]).identity@
            != key by {
            assert(front[i] == entries[i]);
        }
        lemma_absent(front, key);
        assert(entries.last() == entries[entries.len() - 1]);
    }
}

proof fn lemma_present(entries: Seq<SessionEntry>, at: int)
    requires
        distinct(entries),
        0 <= at < entries.len(),
    ensures
        entries_map(entries).dom().contains(entries[at].identity@),
        entries_map(entries)[entries[at].identity@] == entries[at].state@,
    decreases entries.len(),
{
    let front = entries.drop_last();
    if at == entries.len() - 1 {
    } else {
        assert forall|i: int, j: int| 0 <= i < j < front.len() implies (#[trigger] front[i]).identity@
            != (#[trigger] front[j]).identity@ by {
            assert(front[i] == entries[i]);
            assert(front[j] == entries[j]);
        }
        lemma_present(front, at);
        assert(front[at] == entries[at]);
        assert(entries.last() == entries[entries.len() - 1]);
    }
}

proof fn lemma_replace(entries: Seq<SessionEntry>, at: int, entry: SessionEntry)
    requires
        distinct(entries),
        0 <= at < entries.len(),
        entry.identity@ == entries[at].identity@,
    ensures
        distinct(entries.update(at, entry)),
        entries_map(entries.update(at, entry)) == entries_map(entries).insert(
            entry.identity@,
            entry.state@,
        ),
    decreases entries.len(),
{
    let after = entries.update(at, entry);
    assert forall|i: int, j: int| 0 <= i < j < after.len() implies (#[trigger] after[i]).identity@
        != (#[trigger] after[j]).identity@ by {
        assert(after[i].identity@ == entries[i].identity@);
        assert(after[j].identity@ == entries[j].identity@);
    }
    let front = entries.drop_last();
    if at == entries.len() - 1 {
        assert(after.drop_last() =~= front);
        assert(after.last() == entry);
        assert(entries.last() == entries[at]);
        assert(entries_map(after) =~= entries_map(entries).insert(entry.identity@, entry.state@));
    } else {
        assert forall|i: int, j: int| 0 <= i < j < front.len() implies (#[trigger] front[i]).identity@
            != (#[trigger] front[j]).identity@ by {
            assert(front[i] == entries[i]);
            assert(front[j] == entries[j]);
        }
        assert(front[at] == entries[at]);
        lemma_replace(front, at, entry);
        assert(after.drop_last() =~= front.update(at, entry));
        assert(after.last() == entries.last());
        assert(entries.last() == entries[entries.len() - 1]);
        assert(entries.last().identity@ != entry.identity@);
        assert(entries_map(after) =~= entries_map(entries).insert(entry.identity@, entry.state@));
    }
}

impl View for SessionStore {
    type V = Map<Seq<char>, Option<Seq<char>>>;

    closed spec fn view(&self) -> Map<Seq<char>, Option<Seq<char>>> {
        entries_map(self.entries@)
    }
}

impl SessionStore {
    #[verifier::type_invariant]
    spec fn well_formed(self) -> bool {
        distinct(self.entries@)
    }

    /// The state that `identity` reads as.
    pub open spec fn state_of(&self, identity: Seq<char>) -> Option<Seq<char>> {
        state_in(self@, identity)
    }

    /// A store in which no identity has been written.
    pub fn new() -> (store: SessionStore)
        ensures
            store@ == Map::<Seq<char>, Option<Seq<char>>>::empty(),
    {
        SessionStore { entries: Vec::new() }
    }

    /// The position of `identity` among the entries.
    fn position(&self, identity: &String) -> (at: Option<usize>)
        ensures
            match at {
                Some(i) => i < self.entries@.len() && self.entries@[i as int].identity@
                    == identity@,
                None => forall|i: int|
                    0 <= i < self.entries@.len() ==> (#[trigger] self.entries@[i]).identity@
                        != identity@,
            },
    {
        let mut i: usize = 0;
        while i < self.entries.len()
            invariant
                i <= self.entries@.len(),
                forall|j: int| 0 <= j < i ==> (#[trigger] self.entries@[j]).identity@ != identity@,
            decreases self.entries@.len() - i,
        {
            if self.entries[i].identity == *identity {
                return Some(i);
            }
            i += 1;
        }
        None
    }

    /// Reads the state of `identity`: the existing one, or a fresh state
    /// without activity for an identity that has not been written. Reading
    /// changes nothing.
    pub fn get(&self, identity: &str) -> (state: SessionState)
        ensures
            state@ == self.state_of(identity@),
    {
        proof {
            use_type_invariant(self);
        }
        let key = identity.to_owned();
        match self.position(&key) {
            Some(i) => {
                proof {
                    lemma_present(self.entries@, i as int);
                }
                self.entries[i].state.clone()
            },
            None => {
                proof {
                    lemma_absent(self.entries@, key@);
                }
                SessionState::new()
            },
        }
    }

    /// Replaces the state of `identity`. The state of every other identity
    /// stays as it was.
    pub fn set(&mut self, identity: &str, new_state: SessionState)
        ensures
            final(self)@ == old(self)@.insert(identity@, new_state@),
    {
        proof {
            use_type_invariant(&*self);
        }
        let key = identity.to_owned();
        let found = self.position(&key);
        let mut entries = Vec::new();
        std::mem::swap(&mut entries, &mut self.entries);
        let entry = SessionEntry { identity: key, state: new_state };
        match found {
            Some(i) => {
                proof {
                    lemma_replace(entries@, i as int, entry);
                }
                entries.set(i, entry);
            },
            None => {
                assert(entries@.push(entry).drop_last() =~= entries@);
                entries.push(entry);
            },
        }
        self.entries = entries;
    }

    /// Folds `snapshot` into the state of the identity it belongs to, as one
    /// read-modify-write, and returns the event.
    pub fn update(&mut self, snapshot: &Snapshot, tick_interval_seconds: u64) -> (event:
        TransitionEvent)
        ensures
            final(self)@ == old(self)@.insert(snapshot@.identity, snapshot@.activity_id),
            event@ == event_for(
                old(self).state_of(snapshot@.identity),
                snapshot@.activity_id,
                tick_interval_seconds,
            ),
    {
        let mut state = self.get(snapshot.identity.as_str());
        let event = state.advance(snapshot, tick_interval_seconds);
        self.set(snapshot.identity.as_str(), state);
        event
    }
}

} // verus!
