//! Entry store: creates comment entries, returns their creation action's
//! hash, marks actions as tombstoned, and resolves a hash to its current
//! record. Knows nothing of links or chains.

use vstd::prelude::*;
use crate::types::{ActionHash, EntryHash, AgentId, Comment, ResolvedRecord, StoreError};
use crate::ledger::Ledger;
use crate::model::{
    ActionRec, EntryRec, create_model, delete_model, resolve_model, find_action, find_entry,
    lemma_find_entry_push, lemma_find_entry_absent, lemma_find_action_push,
};

verus! {

impl Ledger {
    /// Persists one comment entry and the fresh creation action referencing
    /// it, and returns the action's hash. Fails only when the underlying
    /// write cannot be performed, which for this ledger means the hash
    /// token space is exhausted; nothing changes then.
    pub fn create(&mut self, author: AgentId, comment: Comment) -> (r: Result<ActionHash, StoreError>)
        requires
            old(self).wf(),
        ensures
            final(self).wf(),
            old(self)@.can_alloc() ==> (r matches Ok(h)
                && final(self)@ == create_model(old(self)@, author, comment).0
                && h == create_model(old(self)@, author, comment).1),
            !old(self)@.can_alloc() ==> (r matches Err(e)
                && e == StoreError::Persistence
                && final(self)@ == old(self)@),
    {
        if self.next > u64::MAX - 2 {
            return Err(StoreError::Persistence);
        }
        let ghost v0 = self@;
        let entry_hash = EntryHash(self.next);
        let action_hash = ActionHash(self.next + 1);
        self.entries.push(EntryRec { hash: entry_hash, comment });
        self.actions.push(ActionRec { hash: action_hash, author, entry_hash });
        self.next = self.next + 2;
        proof {
            let v1 = self@;
            assert(v1 == create_model(v0, author, comment).0);
            let new_entry = EntryRec { hash: entry_hash, comment };
            let new_action = ActionRec { hash: action_hash, author, entry_hash };
            assert forall|i: int| 0 <= i < v1.actions.len()
                implies find_entry(v1.entries, v1.actions[i].entry_hash) is Some by {
                if i < v0.actions.len() {
                    assert(v1.actions[i] == v0.actions[i]);
                    lemma_find_entry_push(v0.entries, new_entry, v0.actions[i].entry_hash);
                } else {
                    assert(v1.actions[i] == new_action);
                    lemma_find_entry_absent(v0.entries, entry_hash);
                    lemma_find_entry_push(v0.entries, new_entry, entry_hash);
                }
            }
            assert forall|i: int| 0 <= i < v1.tombstones.len()
                implies find_action(v1.actions, #[trigger] v1.tombstones[i]) is Some by {
                assert(find_action(v0.actions, v0.tombstones[i]) is Some);
                lemma_find_action_push(v0.actions, new_action, v0.tombstones[i]);
            }
            assert(v1.wf());
        }
        Ok(action_hash)
    }

    /// Records a tombstone for the given action. Fails with `NotFound` when
    /// no such action exists; deleting an already tombstoned action is not
    /// an error and records a further tombstone.
    pub fn delete(&mut self, action_hash: ActionHash) -> (r: Result<(), StoreError>)
        requires
            old(self).wf(),
        ensures
            final(self).wf(),
            find_action(old(self)@.actions, action_hash) is Some ==> (r matches Ok(u)
                && final(self)@ == delete_model(old(self)@, action_hash)),
            find_action(old(self)@.actions, action_hash) is None ==> (r matches Err(e)
                && e == StoreError::NotFound
                && final(self)@ == old(self)@),
    {
        let ghost v0 = self@;
        match self.lookup_action(action_hash) {
            None => Err(StoreError::NotFound),
            Some(_) => {
                self.tombstones.push(action_hash);
                proof {
                    let v1 = self@;
                    assert(v1 == delete_model(v0, action_hash));
                    assert forall|i: int| 0 <= i < v1.tombstones.len()
                        implies find_action(v1.actions, #[trigger] v1.tombstones[i]) is Some by {
                        if i < v0.tombstones.len() {
                            assert(v1.tombstones[i] == v0.tombstones[i]);
                        } else {
                            assert(v1.tombstones[i] == action_hash);
                        }
                    }
                    assert(v1.wf());
                }
                Ok(())
            },
        }
    }

    /// Fetches the current record for a hash: the creation action's author
    /// and the comment content it created. Returns `None` when the hash
    /// names no action or the action is tombstoned; both are equivalently
    /// "absent" for read purposes.
    pub fn resolve(&self, hash: ActionHash) -> (r: Option<ResolvedRecord>)
        ensures
            r == resolve_model(self@, hash),
    {
        match self.lookup_action(hash) {
            None => None,
            Some(a) => {
                if self.dead_count(hash) > 0 {
                    None
                } else {
                    match self.lookup_entry(a.entry_hash) {
                        None => None,
                        Some(i) => Some(ResolvedRecord {
                            action_hash: hash,
                            author: a.author,
                            entry_hash: a.entry_hash,
                            comment: Comment { text: self.entries[i].comment.text.clone() },
                        }),
                    }
                }
            },
        }
    }
}

} // verus!
