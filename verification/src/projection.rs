//! Chain projection: replays one author's creation history, fetches each
//! action's detail, joins it against the tombstones recorded for that
//! action, and emits the live comments in feed order.

use vstd::prelude::*;
use crate::types::{ActionHash, AgentId, Comment, ActionDetail, ProjectionError};
use crate::ledger::Ledger;
use crate::model::{
    ActionRec, activity_model, detail_model, live_one, live_comments_model, projection_model,
};

verus! {

/// The surviving comments of a sequence of fetched action details, in feed
/// order. An item survives exactly when it resolved, no tombstone targets
/// it, and its content decoded as a comment; a dead, undecodable or
/// unresolved item is skipped silently, never an error — one bad item must
/// not abort the projection.
pub fn keep_live(details: Vec<ActionDetail>) -> (r: Vec<Comment>)
    ensures
        r@ == live_comments_model(details@),
{
    let ghost whole = details@;
    let mut rest = details;
    let mut r: Vec<Comment> = Vec::new();
    while rest.len() > 0
        invariant
            live_comments_model(whole) =~= r@ + live_comments_model(rest@),
        decreases rest@.len(),
    {
        let ghost before = rest@;
        let item = rest.remove(0);
        proof {
            assert(before.remove(0) =~= before.drop_first());
            assert(item == before[0]);
        }
        match item {
            ActionDetail::Resolved { tombstones, comment } => {
                if tombstones == 0 {
                    match comment {
                        Some(c) => {
                            proof {
                                let kept = live_one(before[0]).unwrap();
                                assert(live_comments_model(before)
                                    =~= seq![kept] + live_comments_model(before.drop_first()));
                                assert((r@ + seq![kept])
                                    + live_comments_model(before.drop_first())
                                    =~= r@ + (seq![kept]
                                        + live_comments_model(before.drop_first())));
                            }
                            r.push(c);
                        },
                        None => (),
                    }
                }
            },
            ActionDetail::Unresolved => (),
        }
    }
    proof {
        assert(rest@ =~= Seq::<ActionDetail>::empty());
        assert(r@ + live_comments_model(rest@) =~= r@);
    }
    r
}

impl Ledger {
    /// The hashes of the agent's creation actions, in chain order: the
    /// activity feed of one author, filtered to comment creations. The
    /// projection never scans another agent's chain.
    pub(crate) fn agent_activity(&self, agent: AgentId) -> (r: Vec<ActionHash>)
        ensures
            r@ == activity_model(self@.actions, agent),
    {
        let n = self.actions.len();
        let mut r: Vec<ActionHash> = Vec::new();
        let mut i: usize = 0;
        proof {
            assert(self@.actions.skip(0) =~= self@.actions);
        }
        while i < n
            invariant
                i <= n,
                n == self@.actions.len(),
                activity_model(self@.actions, agent)
                    =~= r@ + activity_model(self@.actions.skip(i as int), agent),
            decreases n - i,
        {
            let a = self.actions[i];
            proof {
                assert(self@.actions.skip(i as int)[0] == self@.actions[i as int]);
                assert(self@.actions.skip(i as int).drop_first() =~= self@.actions.skip(i + 1));
                if a.author == agent {
                    assert((r@ + seq![a.hash])
                        + activity_model(self@.actions.skip(i + 1), agent)
                        =~= r@ + (seq![a.hash]
                            + activity_model(self@.actions.skip(i + 1), agent)));
                }
            }
            if a.author == agent {
                r.push(a.hash);
            }
            i = i + 1;
        }
        proof {
            assert(self@.actions.skip(n as int) =~= Seq::<ActionRec>::empty());
            assert(r@ + activity_model(self@.actions.skip(n as int), agent) =~= r@);
        }
        r
    }

    /// Fetches the detail of one action: whether it resolves, how many
    /// tombstones target it, and its content decoded as a comment. In this
    /// ledger every stored entry is a well-formed comment, so decoding
    /// succeeds whenever the entry is found.
    pub(crate) fn details_of(&self, h: ActionHash) -> (r: ActionDetail)
        ensures
            r == detail_model(self@, h),
    {
        match self.lookup_action(h) {
            None => ActionDetail::Unresolved,
            Some(a) => {
                let tombstones = self.dead_count(h);
                let comment = match self.lookup_entry(a.entry_hash) {
                    None => None,
                    Some(i) => Some(Comment { text: self.entries[i].comment.text.clone() }),
                };
                ActionDetail::Resolved { tombstones, comment }
            },
        }
    }

    /// The live comments of one agent, in the order the activity feed
    /// yields them: replay the agent's creation actions, fetch each
    /// detail, skip any action that carries a tombstone or does not
    /// resolve or decode, and collect the survivors. The in-memory
    /// activity feed is always available, so the call always succeeds.
    pub fn live_comments_for(&self, agent: AgentId) -> (r: Result<Vec<Comment>, ProjectionError>)
        ensures
            r matches Ok(comments) && comments@ == projection_model(self@, agent),
    {
        let hashes = self.agent_activity(agent);
        let n = hashes.len();
        let mut details: Vec<ActionDetail> = Vec::new();
        let mut i: usize = 0;
        while i < n
            invariant
                i <= n,
                n == hashes@.len(),
                hashes@ == activity_model(self@.actions, agent),
                details@.len() == i,
                forall|j: int| 0 <= j < i ==> details@[j] == detail_model(self@, hashes@[j]),
            decreases n - i,
        {
            details.push(self.details_of(hashes[i]));
            i = i + 1;
        }
        proof {
            assert(details@ =~= activity_model(self@.actions, agent)
                .map_values(|h: ActionHash| detail_model(self@, h)));
        }
        Ok(keep_live(details))
    }
}

} // verus!
