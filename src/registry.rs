//! Commands that wait for the user's approval, keyed by a fresh identifier.

use vstd::prelude::*;
use crate::command::Command;
use crate::system::new_command_id;
use crate::text::texts_equal;

verus! {

struct PendingEntry {
    id: String,
    command: Command,
}

/// The commands awaiting confirmation. Each identifier is held at most once;
/// an entry leaves the registry when it is confirmed or cancelled.
pub struct ConfirmationRegistry {
    entries: Vec<PendingEntry>,
    pending: Ghost<Map<Seq<char>, Command>>,
}

impl ConfirmationRegistry {
    /// The pending commands, by identifier.
    pub closed spec fn pending(&self) -> Map<Seq<char>, Command> {
        self.pending@
    }

    pub closed spec fn wf(&self) -> bool {
        &&& forall|i: int, j: int|
            0 <= i < j < self.entries@.len() ==> #[trigger] self.entries@[i].id@ != #[trigger] self.entries@[j].id@
        &&& forall|i: int|
            0 <= i < self.entries@.len() ==> {
                &&& self.pending@.contains_key(#[trigger] self.entries@[i].id@)
                &&& self.pending@[self.entries@[i].id@] == self.entries@[i].command
            }
        &&& forall|k: Seq<char>|
            #[trigger] self.pending@.contains_key(k) ==> exists|i: int|
                0 <= i < self.entries@.len() && #[trigger] self.entries@[i].id@ == k
    }

    pub fn new() -> (r: Self)
        ensures
            r.wf(),
            r.pending() == Map::<Seq<char>, Command>::empty(),
    {
        ConfirmationRegistry { entries: Vec::new(), pending: Ghost(Map::empty()) }
    }

    /// The number of pending commands.
    pub fn len(&self) -> (r: usize)
        requires
            self.wf(),
        ensures
            r == self.pending().len(),
    {
        proof {
            self.lemma_len();
        }
        self.entries.len()
    }

    proof fn lemma_len(&self)
        requires
            self.wf(),
        ensures
            self.pending@.dom().finite(),
            self.pending@.len() == self.entries@.len(),
        decreases self.entries@.len(),
    {
        let ids = self.entries@.map_values(|e: PendingEntry| e.id@);
        assert(self.pending@.dom() =~= ids.to_set()) by {
            assert forall|k: Seq<char>| self.pending@.dom().contains(k) implies ids.to_set().contains(k) by {
                let i = choose|i: int| 0 <= i < self.entries@.len() && #[trigger] self.entries@[i].id@ == k;
                assert(ids[i] == k);
            }
            assert forall|k: Seq<char>| ids.to_set().contains(k) implies self.pending@.dom().contains(k) by {
                let i = choose|i: int| 0 <= i < ids.len() && ids[i] == k;
                assert(self.entries@[i].id@ == k);
            }
        }
        assert(ids.no_duplicates()) by {
            assert forall|i: int, j: int| 0 <= i < ids.len() && 0 <= j < ids.len() && i != j implies ids[i] != ids[j] by {
                if i < j {
                    assert(self.entries@[i].id@ != self.entries@[j].id@);
                } else {
                    assert(self.entries@[j].id@ != self.entries@[i].id@);
                }
            }
        }
        ids.unique_seq_to_set();
    }

    /// The position of the entry with this identifier.
    fn find(&self, id: &str) -> (r: Option<usize>)
        requires
            self.wf(),
        ensures
            r is Some ==> r->0 < self.entries@.len() && self.entries@[r->0 as int].id@ == id@,
            r is None ==> !self.pending().contains_key(id@),
    {
        let mut i: usize = 0;
        while i < self.entries.len()
            invariant
                self.wf(),
                i <= self.entries@.len(),
                forall|j: int| 0 <= j < i ==> #[trigger] self.entries@[j].id@ != id@,
            decreases self.entries@.len() - i,
        {
            if texts_equal(self.entries[i].id.as_str(), id) {
                return Some(i);
            }
            i = i + 1;
        }
        None
    }

    /// Whether a command is pending under this identifier.
    pub fn is_pending(&self, id: &str) -> (r: bool)
        requires
            self.wf(),
        ensures
            r == self.pending().contains_key(id@),
    {
        match self.find(id) {
            Some(_) => true,
            None => false,
        }
    }

    /// Stores `command` under `id` if no command is pending under it; reports
    /// whether it did.
    pub fn register_with_id(&mut self, id: String, command: Command) -> (r: bool)
        requires
            old(self).wf(),
        ensures
            final(self).wf(),
            r == !old(self).pending().contains_key(id@),
            r ==> final(self).pending() == old(self).pending().insert(id@, command),
            !r ==> final(self).pending() == old(self).pending(),
    {
        match self.find(id.as_str()) {
            Some(_) => false,
            None => {
                let ghost key = id@;
                let ghost before = self.entries@;
                self.entries.push(PendingEntry { id, command });
                self.pending = Ghost(self.pending@.insert(key, command));
                assert(self.entries@[before.len() as int].id@ == key);
                assert forall|k: Seq<char>| #[trigger] self.pending@.contains_key(k) implies exists|i: int|
                    0 <= i < self.entries@.len() && #[trigger] self.entries@[i].id@ == k by {
                    if k == key {
                        assert(self.entries@[before.len() as int].id@ == k);
                    } else {
                        let i = choose|i: int| 0 <= i < before.len() && #[trigger] before[i].id@ == k;
                        assert(self.entries@[i].id@ == k);
                    }
                }
                true
            },
        }
    }

    /// Stores `command` under a freshly generated 36-character identifier and
    /// returns it. Registration fails (`None`, the registry unchanged) only
    /// when the generated identifier was already pending, so it never fails
    /// while no 36-character identifier is pending.
    pub fn register(&mut self, command: Command) -> (r: Option<String>)
        requires
            old(self).wf(),
        ensures
            final(self).wf(),
            r is Some ==> r->0@.len() == 36 && !old(self).pending().contains_key(r->0@) && final(self).pending()
                == old(self).pending().insert(r->0@, command),
            r is None ==> final(self).pending() == old(self).pending(),
            r is None ==> exists|k: Seq<char>| k.len() == 36 && old(self).pending().contains_key(k),
    {
        let id = new_command_id();
        if self.register_with_id(id.clone(), command) {
            Some(id)
        } else {
            None
        }
    }

    fn take(&mut self, i: usize) -> (r: Command)
        requires
            old(self).wf(),
            i < old(self).entries@.len(),
        ensures
            final(self).wf(),
            r == old(self).pending()[old(self).entries@[i as int].id@],
            final(self).pending() == old(self).pending().remove(old(self).entries@[i as int].id@),
    {
        let ghost before = self.entries@;
        let ghost key = before[i as int].id@;
        let entry = self.entries.remove(i);
        self.pending = Ghost(self.pending@.remove(key));
        assert forall|j: int| 0 <= j < self.entries@.len() implies self.entries@[j].id@ != key by {
            if j < i {
                assert(before[j].id@ != before[i as int].id@);
            } else {
                assert(self.entries@[j] == before[j + 1]);
                assert(before[i as int].id@ != before[j + 1].id@);
            }
        }
        assert forall|k: Seq<char>| #[trigger] self.pending@.contains_key(k) implies exists|j: int|
            0 <= j < self.entries@.len() && #[trigger] self.entries@[j].id@ == k by {
            let j = choose|j: int| 0 <= j < before.len() && #[trigger] before[j].id@ == k;
            if j < i {
                assert(self.entries@[j].id@ == k);
            } else {
                assert(j != i);
                assert(self.entries@[j - 1].id@ == k);
            }
        }
        assert forall|a: int, b: int|
            0 <= a < b < self.entries@.len() implies #[trigger] self.entries@[a].id@ != #[trigger] self.entries@[b].id@ by {
            let a0 = if a < i { a } else { a + 1 };
            let b0 = if b < i { b } else { b + 1 };
            assert(self.entries@[a] == before[a0]);
            assert(self.entries@[b] == before[b0]);
        }
        entry.command
    }

    /// Removes and returns the command pending under `id`; `None` when nothing
    /// is pending under it, as for an identifier never registered or already
    /// resolved.
    pub fn resolve_confirm(&mut self, id: &str) -> (r: Option<Command>)
        requires
            old(self).wf(),
        ensures
            final(self).wf(),
            r is Some <==> old(self).pending().contains_key(id@),
            r is Some ==> r->0 == old(self).pending()[id@],
            final(self).pending() == old(self).pending().remove(id@),
    {
        match self.find(id) {
            Some(i) => Some(self.take(i)),
            None => {
                assert(self.pending().remove(id@) =~= self.pending());
                None
            },
        }
    }

    /// Discards the command pending under `id`, if any.
    pub fn resolve_cancel(&mut self, id: &str)
        requires
            old(self).wf(),
        ensures
            final(self).wf(),
            final(self).pending() == old(self).pending().remove(id@),
    {
        match self.find(id) {
            Some(i) => {
                let _ = self.take(i);
            },
            None => {
                assert(self.pending().remove(id@) =~= self.pending());
            },
        }
    }
}

/// A pending command is consumed by its first resolution: afterwards nothing
/// is pending under its identifier, so a second Confirm finds nothing. An
/// identifier that was never registered finds nothing in a new registry.
pub proof fn lemma_resolution_consumes(pending: Map<Seq<char>, Command>, id: Seq<char>)
    ensures
        !pending.remove(id).contains_key(id),
        !Map::<Seq<char>, Command>::empty().contains_key(id),
{
}

} // verus!
