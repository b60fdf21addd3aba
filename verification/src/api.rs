//! Public operation surface: each request is dispatched to the component
//! that implements it — entry store, link index, or chain projection.

use vstd::prelude::*;
use crate::types::{
    ActionHash, AgentId, Comment, ResolvedRecord, StoreError, ProjectionError,
};
use crate::ledger::Ledger;
use crate::model::{
    create_model, delete_model, link_model, records_model, projection_model, find_action,
};

verus! {

impl Ledger {
    /// Creates a comment entry and, atomically from the caller's
    /// perspective, the typed link from the commented-on hash to the new
    /// creation action; returns the action's hash. Fails only when the
    /// entry write fails (here: the hash token space is exhausted), and
    /// changes nothing then.
    pub fn create_comment(
        &mut self,
        author: AgentId,
        comment_on: ActionHash,
        text: String,
    ) -> (r: Result<ActionHash, StoreError>)
        requires
            old(self).wf(),
        ensures
            final(self).wf(),
            old(self)@.can_alloc() ==> (r matches Ok(h)
                && h == create_model(old(self)@, author, (Comment { text })).1
                && final(self)@ == link_model(
                    create_model(old(self)@, author, (Comment { text })).0,
                    comment_on,
                    h,
                )),
            !old(self)@.can_alloc() ==> (r matches Err(e)
                && e == StoreError::Persistence
                && final(self)@ == old(self)@),
    {
        let comment = Comment { text };
        let action_hash = match self.create(author, comment) {
            Ok(h) => h,
            Err(e) => {
                return Err(e);
            },
        };
        let linked = self.link(comment_on, action_hash);
        proof {
            assert(linked matches Ok(u));
        }
        Ok(action_hash)
    }

    /// Every record currently linked to the given hash, in link order;
    /// an empty sequence (never an error) when nothing is linked, and
    /// dangling links silently dropped.
    pub fn get_comments_on(&self, hash: ActionHash) -> (r: Vec<ResolvedRecord>)
        ensures
            r@ == records_model(self@, hash),
    {
        self.fetch_linked_records(hash)
    }

    /// Records a tombstone for the given creation action. Fails with
    /// `NotFound` when the action does not exist; deleting twice is not an
    /// error.
    pub fn delete_comment(&mut self, action_hash: ActionHash) -> (r: Result<(), StoreError>)
        requires
            old(self).wf(),
        ensures
            final(self).wf(),
            find_action(old(self)@.actions, action_hash) is Some ==> (r matches Ok(u)
                && final(self)@ == delete_model(old(self)@, action_hash)),
            find_action(old(self)@.actions, action_hash) is None ==> (r matches Err(e)
                && e == StoreError::NotFound
                && final(self)@ == old(self)@),
    {
        self.delete(action_hash)
    }

    /// The live-only projection of one agent's comments, in chain order:
    /// tombstoned creations are excluded, unresolvable or undecodable ones
    /// skipped silently.
    pub fn get_all_comments_for_agent(&self, agent: AgentId) -> (r: Result<
        Vec<Comment>,
        ProjectionError,
    >)
        ensures
            r matches Ok(comments) && comments@ == projection_model(self@, agent),
    {
        self.live_comments_for(agent)
    }
}

} // verus!
