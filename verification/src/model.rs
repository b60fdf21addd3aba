//! Mathematical model of the ledger: the abstract state, the queries and
//! transitions every operation is specified against, well-formedness, and
//! the lemmas that relate them.

use vstd::prelude::*;
use crate::types::{ActionHash, EntryHash, AgentId, Comment, ResolvedRecord, ActionDetail};

verus! {

/// One creation action of the ledger's log: its own identity, its author,
/// and the content address of the entry it created.
#[derive(Clone, Copy, PartialEq, Eq, Structural, Debug)]
pub struct ActionRec {
    pub hash: ActionHash,
    pub author: AgentId,
    pub entry_hash: EntryHash,
}

/// One stored entry: its content address and the comment it holds.
#[derive(Clone, PartialEq, Debug)]
pub struct EntryRec {
    pub hash: EntryHash,
    pub comment: Comment,
}

/// One typed edge of the link index, from a "commented-on" subject hash to
/// the creation action of a comment.
#[derive(Clone, Copy, PartialEq, Eq, Structural, Debug)]
pub struct LinkRec {
    pub subject: ActionHash,
    pub target: ActionHash,
}

/// Abstract state of the ledger: the append-only action log in order, the
/// content-addressed entries, the tombstones recorded so far (a tombstone
/// marks one action as logically deleted), the link edges in creation
/// order, and the next unassigned hash token.
pub struct LedgerView {
    pub actions: Seq<ActionRec>,
    pub entries: Seq<EntryRec>,
    pub tombstones: Seq<ActionHash>,
    pub links: Seq<LinkRec>,
    pub next: u64,
}

impl LedgerView {
    /// Well-formedness: action and entry hashes are unique, every action's
    /// entry resolves, every tombstone targets an existing action, and every
    /// assigned hash lies below the next unassigned token.
    pub open spec fn wf(self) -> bool {
        &&& forall|i: int, j: int|
            0 <= i < self.actions.len() && 0 <= j < self.actions.len()
                && self.actions[i].hash == self.actions[j].hash ==> i == j
        &&& forall|i: int, j: int|
            0 <= i < self.entries.len() && 0 <= j < self.entries.len()
                && self.entries[i].hash == self.entries[j].hash ==> i == j
        &&& forall|i: int| 0 <= i < self.actions.len()
                ==> find_entry(self.entries, self.actions[i].entry_hash) is Some
        &&& forall|i: int| 0 <= i < self.tombstones.len()
                ==> find_action(self.actions, #[trigger] self.tombstones[i]) is Some
        &&& forall|i: int| 0 <= i < self.actions.len()
                ==> (#[trigger] self.actions[i]).hash.0 < self.next
                    && self.actions[i].entry_hash.0 < self.next
        &&& forall|i: int| 0 <= i < self.entries.len()
                ==> (#[trigger] self.entries[i]).hash.0 < self.next
    }

    /// Room for the two fresh hash tokens one creation consumes.
    pub open spec fn can_alloc(self) -> bool {
        self.next + 2 <= u64::MAX
    }
}

/// The action of the log with the given hash, if any (first match; under
/// well-formedness the match is unique).
pub open spec fn find_action(s: Seq<ActionRec>, h: ActionHash) -> Option<ActionRec>
    decreases s.len(),
{
    if s.len() == 0 {
        None
    } else if s[0].hash == h {
        Some(s[0])
    } else {
        find_action(s.drop_first(), h)
    }
}

/// The entry with the given content address, if any (first match; under
/// well-formedness the match is unique).
pub open spec fn find_entry(s: Seq<EntryRec>, h: EntryHash) -> Option<EntryRec>
    decreases s.len(),
{
    if s.len() == 0 {
        None
    } else if s[0].hash == h {
        Some(s[0])
    } else {
        find_entry(s.drop_first(), h)
    }
}

/// How many tombstones target the given action.
pub open spec fn tombstone_count(s: Seq<ActionHash>, h: ActionHash) -> nat
    decreases s.len(),
{
    if s.len() == 0 {
        0
    } else {
        tombstone_count(s.drop_first(), h) + if s[0] == h { 1nat } else { 0nat }
    }
}

impl LedgerView {
    /// An action is dead once at least one tombstone targets it; there is
    /// no un-delete.
    pub open spec fn is_dead(self, h: ActionHash) -> bool {
        tombstone_count(self.tombstones, h) > 0
    }
}

/// What resolving a hash yields: the full record when the hash names an
/// action that is not tombstoned and whose entry is stored; nothing
/// otherwise. Not found and tombstoned are equivalently "absent" to readers.
pub open spec fn resolve_model(v: LedgerView, h: ActionHash) -> Option<ResolvedRecord> {
    match find_action(v.actions, h) {
        None => None,
        Some(a) => if v.is_dead(h) {
            None
        } else {
            match find_entry(v.entries, a.entry_hash) {
                None => None,
                Some(e) => Some(ResolvedRecord {
                    action_hash: h,
                    author: a.author,
                    entry_hash: a.entry_hash,
                    comment: e.comment,
                }),
            }
        },
    }
}

/// Every link target recorded for a subject, in link-creation order.
pub open spec fn targets_model(s: Seq<LinkRec>, subject: ActionHash) -> Seq<ActionHash>
    decreases s.len(),
{
    if s.len() == 0 {
        Seq::empty()
    } else if s[0].subject == subject {
        seq![s[0].target] + targets_model(s.drop_first(), subject)
    } else {
        targets_model(s.drop_first(), subject)
    }
}

/// The present values of a sequence of optional values, in order; absent
/// values are dropped. This is the fault-isolation filter of every bulk
/// read: one unresolved item is omitted, never an error.
pub open spec fn keep_present_model<T>(s: Seq<Option<T>>) -> Seq<T>
    decreases s.len(),
{
    if s.len() == 0 {
        Seq::empty()
    } else {
        match s[0] {
            Some(x) => seq![x] + keep_present_model(s.drop_first()),
            None => keep_present_model(s.drop_first()),
        }
    }
}

/// What fetching the linked records of a subject yields: each link target
/// resolved, with dangling targets (tombstoned, or not resolving) dropped.
pub open spec fn records_model(v: LedgerView, subject: ActionHash) -> Seq<ResolvedRecord> {
    keep_present_model(targets_model(v.links, subject).map_values(|t: ActionHash| resolve_model(v, t)))
}

/// The hashes of an agent's creation actions, in chain order. This models
/// the collaborator's chain-activity feed, already filtered to comment
/// creations by the agent.
pub open spec fn activity_model(s: Seq<ActionRec>, agent: AgentId) -> Seq<ActionHash>
    decreases s.len(),
{
    if s.len() == 0 {
        Seq::empty()
    } else if s[0].author == agent {
        seq![s[0].hash] + activity_model(s.drop_first(), agent)
    } else {
        activity_model(s.drop_first(), agent)
    }
}

/// What fetching the detail of one action yields: the tombstones targeting
/// it and its decoded content. In this ledger every stored entry is a
/// well-formed comment, so decoding succeeds whenever the action resolves.
pub open spec fn detail_model(v: LedgerView, h: ActionHash) -> ActionDetail {
    match find_action(v.actions, h) {
        None => ActionDetail::Unresolved,
        Some(a) => ActionDetail::Resolved {
            tombstones: tombstone_count(v.tombstones, h) as usize,
            comment: match find_entry(v.entries, a.entry_hash) {
                None => None,
                Some(e) => Some(e.comment),
            },
        },
    }
}

/// Whether one fetched detail survives the projection, and with which
/// comment: it must have resolved, carry no tombstone, and have decoded as
/// a comment; every other outcome is skipped silently.
pub open spec fn live_one(d: ActionDetail) -> Option<Comment> {
    match d {
        ActionDetail::Resolved { tombstones, comment: Some(c) } => if tombstones == 0 {
            Some(c)
        } else {
            None
        },
        _ => None,
    }
}

/// The surviving comments of a sequence of fetched details, in feed order.
pub open spec fn live_comments_model(s: Seq<ActionDetail>) -> Seq<Comment>
    decreases s.len(),
{
    if s.len() == 0 {
        Seq::empty()
    } else {
        match live_one(s[0]) {
            Some(c) => seq![c] + live_comments_model(s.drop_first()),
            None => live_comments_model(s.drop_first()),
        }
    }
}

/// The live projection of one agent's history: replay the agent's creation
/// actions in order, fetch each detail, and keep the survivors.
pub open spec fn projection_model(v: LedgerView, agent: AgentId) -> Seq<Comment> {
    live_comments_model(activity_model(v.actions, agent).map_values(|h: ActionHash| detail_model(v, h)))
}

/// Creating a comment: one fresh entry at the next content address, one
/// fresh creation action referencing it, two hash tokens consumed. Returns
/// the new state and the new action's hash.
pub open spec fn create_model(v: LedgerView, author: AgentId, c: Comment) -> (LedgerView, ActionHash) {
    let eh = EntryHash(v.next);
    let ah = ActionHash((v.next + 1) as u64);
    (LedgerView {
        actions: v.actions.push(ActionRec { hash: ah, author, entry_hash: eh }),
        entries: v.entries.push(EntryRec { hash: eh, comment: c }),
        next: (v.next + 2) as u64,
        ..v
    }, ah)
}

/// Deleting an action: one more tombstone recorded against it. The action
/// itself is never removed; deleting an already dead action records a
/// further tombstone and is not an error.
pub open spec fn delete_model(v: LedgerView, h: ActionHash) -> LedgerView {
    LedgerView { tombstones: v.tombstones.push(h), ..v }
}

/// Creating a link: one more edge recorded. No uniqueness constraint:
/// repeated edges from the same subject to the same target all persist.
pub open spec fn link_model(v: LedgerView, subject: ActionHash, target: ActionHash) -> LedgerView {
    LedgerView { links: v.links.push(LinkRec { subject, target }), ..v }
}

/// Looking an action up in a log extended at the end: an existing match is
/// unchanged; otherwise the new action answers exactly for its own hash.
pub proof fn lemma_find_action_push(s: Seq<ActionRec>, a: ActionRec, h: ActionHash)
    ensures
        find_action(s.push(a), h) == (if find_action(s, h) is Some {
            find_action(s, h)
        } else if a.hash == h {
            Some(a)
        } else {
            None::<ActionRec>
        }),
    decreases s.len(),
{
    if s.len() == 0 {
        assert(s.push(a)[0] == a);
        assert(s.push(a).drop_first() =~= Seq::<ActionRec>::empty());
    } else {
        assert(s.push(a)[0] == s[0]);
        assert(s.push(a).drop_first() =~= s.drop_first().push(a));
        lemma_find_action_push(s.drop_first(), a, h);
    }
}

/// A hash matched by no action of the log is found nowhere in it.
pub proof fn lemma_find_action_absent(s: Seq<ActionRec>, h: ActionHash)
    requires
        forall|i: int| 0 <= i < s.len() ==> (#[trigger] s[i]).hash != h,
    ensures
        find_action(s, h) is None,
    decreases s.len(),
{
    if s.len() > 0 {
        lemma_find_action_absent(s.drop_first(), h);
    }
}

/// A found action carries the hash it was looked up by and stands in the log.
pub proof fn lemma_find_action_found(s: Seq<ActionRec>, h: ActionHash)
    requires
        find_action(s, h) is Some,
    ensures
        find_action(s, h).unwrap().hash == h,
        exists|i: int| 0 <= i < s.len() && s[i] == find_action(s, h).unwrap(),
    decreases s.len(),
{
    if s.len() > 0 && s[0].hash != h {
        lemma_find_action_found(s.drop_first(), h);
        let j = choose|j: int|
            0 <= j < s.drop_first().len() && s.drop_first()[j] == find_action(s, h).unwrap();
        assert(s[j + 1] == find_action(s, h).unwrap());
    }
}

/// Looking an entry up in a store extended at the end: an existing match is
/// unchanged; otherwise the new entry answers exactly for its own address.
pub proof fn lemma_find_entry_push(s: Seq<EntryRec>, e: EntryRec, h: EntryHash)
    ensures
        find_entry(s.push(e), h) == (if find_entry(s, h) is Some {
            find_entry(s, h)
        } else if e.hash == h {
            Some(e)
        } else {
            None::<EntryRec>
        }),
    decreases s.len(),
{
    if s.len() == 0 {
        assert(s.push(e)[0] == e);
        assert(s.push(e).drop_first() =~= Seq::<EntryRec>::empty());
    } else {
        assert(s.push(e)[0] == s[0]);
        assert(s.push(e).drop_first() =~= s.drop_first().push(e));
        lemma_find_entry_push(s.drop_first(), e, h);
    }
}

/// An address matched by no entry of the store is found nowhere in it.
pub proof fn lemma_find_entry_absent(s: Seq<EntryRec>, h: EntryHash)
    requires
        forall|i: int| 0 <= i < s.len() ==> (#[trigger] s[i]).hash != h,
    ensures
        find_entry(s, h) is None,
    decreases s.len(),
{
    if s.len() > 0 {
        lemma_find_entry_absent(s.drop_first(), h);
    }
}

/// A hash carried by some action of the log is always found.
pub proof fn lemma_find_action_present(s: Seq<ActionRec>, h: ActionHash)
    requires
        exists|i: int| 0 <= i < s.len() && (#[trigger] s[i]).hash == h,
    ensures
        find_action(s, h) is Some,
    decreases s.len(),
{
    if s.len() > 0 && s[0].hash != h {
        let i = choose|i: int| 0 <= i < s.len() && (#[trigger] s[i]).hash == h;
        assert(s.drop_first()[i - 1] == s[i]);
        lemma_find_action_present(s.drop_first(), h);
    }
}

/// Every hash of an agent's activity names an action of that agent in the
/// log.
pub proof fn lemma_activity_member(s: Seq<ActionRec>, agent: AgentId, h: ActionHash)
    requires
        activity_model(s, agent).contains(h),
    ensures
        exists|i: int| 0 <= i < s.len()
            && (#[trigger] s[i]).hash == h && s[i].author == agent,
    decreases s.len(),
{
    if s.len() > 0 {
        let a = activity_model(s, agent);
        if s[0].author == agent && h == s[0].hash {
            assert(s[0].hash == h && s[0].author == agent);
        } else {
            let k = choose|k: int| 0 <= k < a.len() && a[k] == h;
            if s[0].author == agent {
                assert(a == seq![s[0].hash] + activity_model(s.drop_first(), agent));
                assert(k != 0);
                assert(activity_model(s.drop_first(), agent)[k - 1] == h);
                assert(activity_model(s.drop_first(), agent).contains(h));
            } else {
                assert(a == activity_model(s.drop_first(), agent));
                assert(activity_model(s.drop_first(), agent).contains(h));
            }
            lemma_activity_member(s.drop_first(), agent, h);
            let i = choose|i: int| 0 <= i < s.drop_first().len()
                && (#[trigger] s.drop_first()[i]).hash == h && s.drop_first()[i].author == agent;
            assert(s[i + 1] == s.drop_first()[i]);
        }
    }
}

/// Every record kept from resolving a list of targets stems from a
/// resolution that succeeded: its action is in the log and not tombstoned,
/// and its hash is the target it was resolved from.
pub proof fn lemma_kept_records_live(v: LedgerView, ts: Seq<ActionHash>, r: ResolvedRecord)
    requires
        keep_present_model(ts.map_values(|t: ActionHash| resolve_model(v, t))).contains(r),
    ensures
        find_action(v.actions, r.action_hash) is Some,
        !v.is_dead(r.action_hash),
        resolve_model(v, r.action_hash) == Some(r),
    decreases ts.len(),
{
    let m = ts.map_values(|t: ActionHash| resolve_model(v, t));
    let kept = keep_present_model(m);
    if ts.len() == 0 {
        assert(m =~= Seq::<Option<ResolvedRecord>>::empty());
        assert(kept.len() == 0);
    } else {
        assert(m[0] == resolve_model(v, ts[0]));
        assert(m.drop_first() =~= ts.drop_first().map_values(|t: ActionHash| resolve_model(v, t)));
        match resolve_model(v, ts[0]) {
            Some(x) => {
                assert(kept == seq![x] + keep_present_model(m.drop_first()));
                if r == x {
                    assert(r.action_hash == ts[0]);
                } else {
                    let k = choose|k: int| 0 <= k < kept.len() && kept[k] == r;
                    assert(k != 0);
                    assert(keep_present_model(m.drop_first())[k - 1] == r);
                    assert(keep_present_model(m.drop_first()).contains(r));
                    lemma_kept_records_live(v, ts.drop_first(), r);
                }
            },
            None => {
                assert(kept == keep_present_model(m.drop_first()));
                lemma_kept_records_live(v, ts.drop_first(), r);
            },
        }
    }
}

/// Recording one more tombstone raises the count of its target by one and
/// leaves every other count unchanged.
pub proof fn lemma_tombstone_count_push(s: Seq<ActionHash>, t: ActionHash, h: ActionHash)
    ensures
        tombstone_count(s.push(t), h)
            == tombstone_count(s, h) + if t == h { 1nat } else { 0nat },
    decreases s.len(),
{
    if s.len() == 0 {
        assert(s.push(t)[0] == t);
        assert(s.push(t).drop_first() =~= Seq::<ActionHash>::empty());
        assert(tombstone_count(s.push(t).drop_first(), h) == 0);
        assert(tombstone_count(s.push(t), h)
            == tombstone_count(s.push(t).drop_first(), h)
                + if s.push(t)[0] == h { 1nat } else { 0nat });
        assert(tombstone_count(s, h) == 0);
    } else {
        assert(s.push(t)[0] == s[0]);
        assert(s.push(t).drop_first() =~= s.drop_first().push(t));
        lemma_tombstone_count_push(s.drop_first(), t, h);
        assert(tombstone_count(s.push(t), h)
            == tombstone_count(s.drop_first().push(t), h)
                + if s[0] == h { 1nat } else { 0nat });
    }
}

/// An action's tombstone count is zero exactly when no tombstone targets it.
pub proof fn lemma_tombstone_count_zero(s: Seq<ActionHash>, h: ActionHash)
    ensures
        tombstone_count(s, h) == 0 <==> forall|i: int| 0 <= i < s.len() ==> s[i] != h,
    decreases s.len(),
{
    if s.len() > 0 {
        lemma_tombstone_count_zero(s.drop_first(), h);
        if tombstone_count(s, h) == 0 {
            assert forall|i: int| 0 <= i < s.len() implies s[i] != h by {
                if i > 0 {
                    assert(s.drop_first()[i - 1] == s[i]);
                }
            }
        }
    }
}

/// Recording one more link extends its subject's target list at the end and
/// leaves every other subject's list unchanged.
pub proof fn lemma_targets_push(s: Seq<LinkRec>, l: LinkRec, subject: ActionHash)
    ensures
        targets_model(s.push(l), subject) == (if l.subject == subject {
            targets_model(s, subject).push(l.target)
        } else {
            targets_model(s, subject)
        }),
    decreases s.len(),
{
    if s.len() == 0 {
        assert(s.push(l)[0] == l);
        assert(s.push(l).drop_first() =~= Seq::<LinkRec>::empty());
        if l.subject == subject {
            assert(seq![l.target] + targets_model(Seq::empty(), subject)
                =~= targets_model(Seq::<LinkRec>::empty(), subject).push(l.target));
        }
    } else {
        assert(s.push(l)[0] == s[0]);
        assert(s.push(l).drop_first() =~= s.drop_first().push(l));
        lemma_targets_push(s.drop_first(), l, subject);
        if s[0].subject == subject {
            if l.subject == subject {
                assert(seq![s[0].target] + targets_model(s.drop_first(), subject).push(l.target)
                    =~= (seq![s[0].target] + targets_model(s.drop_first(), subject)).push(l.target));
            }
        }
    }
}

/// The activity of an agent after one more action: the agent's own action
/// appends its hash, another author's changes nothing.
pub proof fn lemma_activity_push(s: Seq<ActionRec>, a: ActionRec, agent: AgentId)
    ensures
        activity_model(s.push(a), agent) == (if a.author == agent {
            activity_model(s, agent).push(a.hash)
        } else {
            activity_model(s, agent)
        }),
    decreases s.len(),
{
    if s.len() == 0 {
        assert(s.push(a)[0] == a);
        assert(s.push(a).drop_first() =~= Seq::<ActionRec>::empty());
        if a.author == agent {
            assert(seq![a.hash] + activity_model(Seq::empty(), agent)
                =~= activity_model(Seq::<ActionRec>::empty(), agent).push(a.hash));
        }
    } else {
        assert(s.push(a)[0] == s[0]);
        assert(s.push(a).drop_first() =~= s.drop_first().push(a));
        lemma_activity_push(s.drop_first(), a, agent);
        if s[0].author == agent && a.author == agent {
            assert(seq![s[0].hash] + activity_model(s.drop_first(), agent).push(a.hash)
                =~= (seq![s[0].hash] + activity_model(s.drop_first(), agent)).push(a.hash));
        }
    }
}

/// The surviving comments of a detail sequence extended at the end: a live,
/// decodable item appends its comment, any other item changes nothing.
pub proof fn lemma_live_comments_push(s: Seq<ActionDetail>, d: ActionDetail)
    ensures
        live_comments_model(s.push(d)) == (match live_one(d) {
            Some(c) => live_comments_model(s).push(c),
            None => live_comments_model(s),
        }),
    decreases s.len(),
{
    if s.len() == 0 {
        assert(s.push(d)[0] == d);
        assert(s.push(d).drop_first() =~= Seq::<ActionDetail>::empty());
        match live_one(d) {
            Some(c) => {
                assert(seq![c] + live_comments_model(Seq::<ActionDetail>::empty())
                    =~= live_comments_model(Seq::<ActionDetail>::empty()).push(c));
                assert(live_comments_model(s.push(d))
                    == seq![c] + live_comments_model(s.push(d).drop_first()));
                assert(live_comments_model(s.push(d)) == live_comments_model(s).push(c));
            },
            None => {
                assert(live_comments_model(s.push(d))
                    == live_comments_model(s.push(d).drop_first()));
                assert(live_comments_model(s.push(d)) == live_comments_model(s));
            },
        }
    } else {
        assert(s.push(d)[0] == s[0]);
        assert(s.push(d).drop_first() =~= s.drop_first().push(d));
        lemma_live_comments_push(s.drop_first(), d);
        match (live_one(s[0]), live_one(d)) {
            (Some(c0), Some(c1)) => {
                assert(seq![c0] + live_comments_model(s.drop_first()).push(c1)
                    =~= (seq![c0] + live_comments_model(s.drop_first())).push(c1));
            },
            _ => (),
        }
    }
}

} // verus!
