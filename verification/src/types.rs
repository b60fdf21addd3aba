//! Value types of the comment layer: opaque hash tokens, comment entries,
//! resolved records, fetched action details, and the error taxonomy.

use vstd::prelude::*;

verus! {

/// Identity of a single ledger event (e.g. a creation), distinct from the
/// content it creates. The ledger's addressing scheme is out of scope here:
/// a hash is an opaque, globally unique, comparable token.
#[derive(Clone, Copy, PartialEq, Eq, Structural, Debug)]
pub struct ActionHash(pub u64);

/// Content address of an entry, derived by the collaborator layer from the
/// entry's bytes. Opaque, globally unique, comparable.
#[derive(Clone, Copy, PartialEq, Eq, Structural, Debug)]
pub struct EntryHash(pub u64);

/// Identity of an author, as supplied by the collaborator layer.
#[derive(Clone, Copy, PartialEq, Eq, Structural, Debug)]
pub struct AgentId(pub u64);

/// A comment entry: immutable once created; its identity is the content
/// hash assigned at creation time.
#[derive(Clone, PartialEq, Debug)]
pub struct Comment {
    pub text: String,
}

/// The record a hash resolves to: the creation action's identity and author
/// together with the comment content it created.
#[derive(Clone, PartialEq, Debug)]
pub struct ResolvedRecord {
    pub action_hash: ActionHash,
    pub author: AgentId,
    pub entry_hash: EntryHash,
    pub comment: Comment,
}

/// What fetching the detail of one creation action yields: either nothing
/// (unresolved: not found, or unavailable), or a record together with the
/// number of tombstones targeting the action and the outcome of decoding
/// its entry as a `Comment` (`None` when the stored bytes do not have the
/// shape of a comment).
#[derive(Clone, PartialEq, Debug)]
pub enum ActionDetail {
    Unresolved,
    Resolved { tombstones: usize, comment: Option<Comment> },
}

/// Errors of the entry store: a failed write to the ledger, or a delete
/// whose target action does not exist.
#[derive(Clone, Copy, PartialEq, Eq, Structural, Debug)]
pub enum StoreError {
    Persistence,
    NotFound,
}

/// Errors of the link index: a failed write of the edge. The in-memory
/// ledger's link write always succeeds, so the index's operations promise
/// in their contracts never to produce this value.
#[derive(Clone, Copy, PartialEq, Eq, Structural, Debug)]
pub enum IndexError {
    Persistence,
}

/// Errors of the chain projection: the activity feed could not be reached.
/// The in-memory ledger's feed is always available, so the projection
/// promises in its contract never to produce this value.
#[derive(Clone, Copy, PartialEq, Eq, Structural, Debug)]
pub enum ProjectionError {
    FeedUnavailable,
}

} // verus!
