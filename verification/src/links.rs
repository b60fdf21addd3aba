//! Link index: maintains the typed edge "subject hash -> comment creation
//! hash" and resolves, for a subject, the records its links point at,
//! silently dropping dangling targets.

use vstd::prelude::*;
use crate::types::{ActionHash, ResolvedRecord, IndexError};
use crate::ledger::Ledger;
use crate::model::{
    LinkRec, link_model, targets_model, records_model, resolve_model, keep_present_model,
};

verus! {

/// The present values of a sequence of optional values, in order. This is
/// the fault-isolation step of every bulk read: an absent item is omitted,
/// never surfaced as a partial value or an error.
pub fn keep_present<T>(items: Vec<Option<T>>) -> (r: Vec<T>)
    ensures
        r@ == keep_present_model(items@),
{
    let ghost whole = items@;
    let mut rest = items;
    let mut r: Vec<T> = Vec::new();
    while rest.len() > 0
        invariant
            keep_present_model(whole) =~= r@ + keep_present_model(rest@),
        decreases rest@.len(),
    {
        let ghost before = rest@;
        let item = rest.remove(0);
        proof {
            assert(before.remove(0) =~= before.drop_first());
            assert(item == before[0]);
        }
        match item {
            Some(x) => {
                proof {
                    assert(keep_present_model(before)
                        =~= seq![before[0].unwrap()] + keep_present_model(before.drop_first()));
                    assert((r@ + seq![before[0].unwrap()]) + keep_present_model(before.drop_first())
                        =~= r@ + (seq![before[0].unwrap()] + keep_present_model(before.drop_first())));
                }
                r.push(x);
            },
            None => (),
        }
    }
    proof {
        assert(rest@ =~= Seq::<Option<T>>::empty());
        assert(r@ + keep_present_model(rest@) =~= r@);
    }
    r
}

impl Ledger {
    /// Creates the typed edge from a subject to a comment's creation
    /// action. No uniqueness constraint: repeated edges persist. The
    /// in-memory ledger's edge write always succeeds.
    pub fn link(&mut self, subject: ActionHash, target: ActionHash) -> (r: Result<(), IndexError>)
        requires
            old(self).wf(),
        ensures
            final(self).wf(),
            r matches Ok(u),
            final(self)@ == link_model(old(self)@, subject, target),
    {
        self.links.push(LinkRec { subject, target });
        Ok(())
    }

    /// Every link target recorded for a subject, in link-creation order;
    /// an empty sequence (not an error) when no links exist.
    pub fn targets_of(&self, subject: ActionHash) -> (r: Vec<ActionHash>)
        ensures
            r@ == targets_model(self@.links, subject),
    {
        let n = self.links.len();
        let mut r: Vec<ActionHash> = Vec::new();
        let mut i: usize = 0;
        proof {
            assert(self@.links.skip(0) =~= self@.links);
        }
        while i < n
            invariant
                i <= n,
                n == self@.links.len(),
                targets_model(self@.links, subject)
                    =~= r@ + targets_model(self@.links.skip(i as int), subject),
            decreases n - i,
        {
            let l = self.links[i];
            proof {
                assert(self@.links.skip(i as int)[0] == self@.links[i as int]);
                assert(self@.links.skip(i as int).drop_first() =~= self@.links.skip(i + 1));
                if l.subject == subject {
                    assert((r@ + seq![l.target])
                        + targets_model(self@.links.skip(i + 1), subject)
                        =~= r@ + (seq![l.target]
                            + targets_model(self@.links.skip(i + 1), subject)));
                }
            }
            if l.subject == subject {
                r.push(l.target);
            }
            i = i + 1;
        }
        proof {
            assert(self@.links.skip(n as int) =~= Seq::<LinkRec>::empty());
            assert(r@ + targets_model(self@.links.skip(n as int), subject) =~= r@);
        }
        r
    }

    /// Resolves every link target of a subject and returns the records
    /// found, in link order; dangling targets (tombstoned, or resolving to
    /// nothing) are dropped, so the result may be shorter than the target
    /// list. That is expected, not an error.
    pub fn fetch_linked_records(&self, subject: ActionHash) -> (r: Vec<ResolvedRecord>)
        ensures
            r@ == records_model(self@, subject),
    {
        let targets = self.targets_of(subject);
        let n = targets.len();
        let mut fetched: Vec<Option<ResolvedRecord>> = Vec::new();
        let mut i: usize = 0;
        while i < n
            invariant
                i <= n,
                n == targets@.len(),
                targets@ == targets_model(self@.links, subject),
                fetched@.len() == i,
                forall|j: int| 0 <= j < i
                    ==> fetched@[j] == resolve_model(self@, targets@[j]),
            decreases n - i,
        {
            fetched.push(self.resolve(targets[i]));
            i = i + 1;
        }
        proof {
            assert(fetched@ =~= targets_model(self@.links, subject)
                .map_values(|t: ActionHash| resolve_model(self@, t)));
        }
        keep_present(fetched)
    }
}

} // verus!
