//! The ledger: executable state standing for the collaborator-owned,
//! append-only, content-addressed store this layer computes its local
//! projections from, together with the scan helpers every component shares.

use vstd::prelude::*;
use crate::types::{ActionHash, EntryHash};
use crate::model::{
    ActionRec, EntryRec, LinkRec, LedgerView, find_action, find_entry, tombstone_count,
};

verus! {

/// The append-only ledger: the action log in chain order, the stored
/// entries, the tombstones, the link edges, and the next unassigned hash
/// token. All public operations are specified against its `LedgerView`.
pub struct Ledger {
    pub(crate) actions: Vec<ActionRec>,
    pub(crate) entries: Vec<EntryRec>,
    pub(crate) tombstones: Vec<ActionHash>,
    pub(crate) links: Vec<LinkRec>,
    pub(crate) next: u64,
}

impl View for Ledger {
    type V = LedgerView;

    open(crate) spec fn view(&self) -> LedgerView {
        LedgerView {
            actions: self.actions@,
            entries: self.entries@,
            tombstones: self.tombstones@,
            links: self.links@,
            next: self.next,
        }
    }
}

impl Ledger {
    /// Well-formedness of the ledger, carried by every operation.
    pub open spec fn wf(self) -> bool {
        self@.wf()
    }

    /// An empty ledger: no actions, no entries, no tombstones, no links.
    pub fn new() -> (r: Ledger)
        ensures
            r.wf(),
            r@.actions == Seq::<ActionRec>::empty(),
            r@.entries == Seq::<EntryRec>::empty(),
            r@.tombstones == Seq::<ActionHash>::empty(),
            r@.links == Seq::<LinkRec>::empty(),
            r@.next == 0,
    {
        Ledger {
            actions: Vec::new(),
            entries: Vec::new(),
            tombstones: Vec::new(),
            links: Vec::new(),
            next: 0,
        }
    }

    /// The action with the given hash, if the log holds one.
    pub(crate) fn lookup_action(&self, h: ActionHash) -> (r: Option<ActionRec>)
        ensures
            r == find_action(self@.actions, h),
    {
        let n = self.actions.len();
        let mut i: usize = 0;
        proof {
            assert(self@.actions.skip(0) =~= self@.actions);
        }
        while i < n
            invariant
                i <= n,
                n == self@.actions.len(),
                find_action(self@.actions, h) == find_action(self@.actions.skip(i as int), h),
            decreases n - i,
        {
            let a = self.actions[i];
            proof {
                assert(self@.actions.skip(i as int)[0] == self@.actions[i as int]);
                assert(self@.actions.skip(i as int).drop_first()
                    =~= self@.actions.skip(i + 1));
            }
            if a.hash == h {
                return Some(a);
            }
            i = i + 1;
        }
        proof {
            assert(self@.actions.skip(n as int) =~= Seq::<ActionRec>::empty());
        }
        None
    }

    /// The position of the entry with the given address, if one is stored.
    pub(crate) fn lookup_entry(&self, h: EntryHash) -> (r: Option<usize>)
        ensures
            match r {
                Some(i) => i < self@.entries.len()
                    && find_entry(self@.entries, h) == Some(self@.entries[i as int]),
                None => find_entry(self@.entries, h) is None,
            },
    {
        let n = self.entries.len();
        let mut i: usize = 0;
        proof {
            assert(self@.entries.skip(0) =~= self@.entries);
        }
        while i < n
            invariant
                i <= n,
                n == self@.entries.len(),
                find_entry(self@.entries, h) == find_entry(self@.entries.skip(i as int), h),
            decreases n - i,
        {
            proof {
                assert(self@.entries.skip(i as int)[0] == self@.entries[i as int]);
                assert(self@.entries.skip(i as int).drop_first()
                    =~= self@.entries.skip(i + 1));
            }
            if self.entries[i].hash == h {
                return Some(i);
            }
            i = i + 1;
        }
        proof {
            assert(self@.entries.skip(n as int) =~= Seq::<EntryRec>::empty());
        }
        None
    }

    /// How many tombstones target the given action.
    pub(crate) fn dead_count(&self, h: ActionHash) -> (n: usize)
        ensures
            n == tombstone_count(self@.tombstones, h),
    {
        let len = self.tombstones.len();
        let mut count: usize = 0;
        let mut i: usize = 0;
        proof {
            assert(self@.tombstones.skip(0) =~= self@.tombstones);
        }
        while i < len
            invariant
                i <= len,
                count <= i,
                len == self@.tombstones.len(),
                tombstone_count(self@.tombstones, h)
                    == count + tombstone_count(self@.tombstones.skip(i as int), h),
            decreases len - i,
        {
            proof {
                assert(self@.tombstones.skip(i as int)[0] == self@.tombstones[i as int]);
                assert(self@.tombstones.skip(i as int).drop_first()
                    =~= self@.tombstones.skip(i + 1));
            }
            if self.tombstones[i] == h {
                count = count + 1;
            }
            i = i + 1;
        }
        proof {
            assert(self@.tombstones.skip(len as int) =~= Seq::<ActionHash>::empty());
        }
        count
    }
}

} // verus!
