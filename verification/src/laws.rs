//! Laws of the comment layer, proved once and for all against the model
//! that every operation's contract is stated over.

use vstd::prelude::*;
use crate::types::{ActionHash, EntryHash, AgentId, Comment, ResolvedRecord};
use crate::types::ActionDetail;
use crate::model::{
    ActionRec, EntryRec, LinkRec, LedgerView, create_model, delete_model, link_model,
    resolve_model, targets_model, records_model, projection_model, activity_model,
    detail_model, live_one, live_comments_model, find_action, find_entry, tombstone_count,
    lemma_find_action_absent, lemma_find_action_push, lemma_find_action_present,
    lemma_find_action_found, lemma_find_entry_absent, lemma_find_entry_push,
    lemma_tombstone_count_zero, lemma_tombstone_count_push, lemma_targets_push,
    lemma_kept_records_live, lemma_activity_push, lemma_activity_member,
    lemma_live_comments_push, keep_present_model,
};

verus! {

/// Round-trip: creating a comment and resolving the returned action hash
/// yields a record holding exactly the created content, authored by the
/// creator.
pub proof fn round_trip(v: LedgerView, author: AgentId, c: Comment)
    requires
        v.wf(),
        v.can_alloc(),
    ensures
        resolve_model(create_model(v, author, c).0, create_model(v, author, c).1)
            == Some(ResolvedRecord {
                action_hash: create_model(v, author, c).1,
                author,
                entry_hash: EntryHash(v.next),
                comment: c,
            }),
{
    let (v1, ah) = create_model(v, author, c);
    let eh = EntryHash(v.next);
    let new_entry = EntryRec { hash: eh, comment: c };
    let new_action = ActionRec { hash: ah, author, entry_hash: eh };
    assert forall|i: int| 0 <= i < v.actions.len()
        implies (#[trigger] v.actions[i]).hash != ah by {
        assert(v.actions[i].hash.0 < v.next);
    }
    lemma_find_action_absent(v.actions, ah);
    lemma_find_action_push(v.actions, new_action, ah);
    assert(find_action(v1.actions, ah) == Some(new_action));
    assert forall|i: int| 0 <= i < v.tombstones.len()
        implies v.tombstones[i] != ah by {
        assert(find_action(v.actions, #[trigger] v.tombstones[i]) is Some);
    }
    lemma_tombstone_count_zero(v.tombstones, ah);
    assert(!v1.is_dead(ah));
    assert forall|i: int| 0 <= i < v.entries.len()
        implies (#[trigger] v.entries[i]).hash != eh by {
        assert(v.entries[i].hash.0 < v.next);
    }
    lemma_find_entry_absent(v.entries, eh);
    lemma_find_entry_push(v.entries, new_entry, eh);
    assert(find_entry(v1.entries, eh) == Some(new_entry));
}

/// Link visibility: after a link is recorded, the subject's target list is
/// the old list with the new target appended — in particular it contains
/// the new target — and no other subject's list changes.
pub proof fn link_visible(v: LedgerView, subject: ActionHash, target: ActionHash)
    ensures
        targets_model(link_model(v, subject, target).links, subject)
            == targets_model(v.links, subject).push(target),
        targets_model(link_model(v, subject, target).links, subject).contains(target),
        forall|s: ActionHash| s != subject
            ==> targets_model(link_model(v, subject, target).links, s)
                == targets_model(v.links, s),
{
    lemma_targets_push(v.links, LinkRec { subject, target }, subject);
    let grown = targets_model(v.links, subject).push(target);
    assert(grown[grown.len() - 1] == target);
    assert forall|s: ActionHash| s != subject
        implies targets_model(link_model(v, subject, target).links, s)
            == targets_model(v.links, s) by {
        lemma_targets_push(v.links, LinkRec { subject, target }, s);
    }
}

/// Every record a subject's linked-record fetch returns stems from a live,
/// resolvable target: its action stands in the log and no tombstone
/// targets it. Dangling links are omitted, never surfaced.
pub proof fn fetched_records_live(v: LedgerView, subject: ActionHash)
    ensures
        forall|i: int| 0 <= i < records_model(v, subject).len()
            ==> find_action(v.actions, (#[trigger] records_model(v, subject)[i]).action_hash)
                is Some
                && !v.is_dead(records_model(v, subject)[i].action_hash),
{
    let records = records_model(v, subject);
    assert forall|i: int| 0 <= i < records.len()
        implies find_action(v.actions, (#[trigger] records[i]).action_hash) is Some
            && !v.is_dead(records[i].action_hash) by {
        assert(records.contains(records[i]));
        lemma_kept_records_live(v, targets_model(v.links, subject), records[i]);
    }
}

/// Dangling-link tolerance: once a link's target action is deleted, a
/// fetch of the subject's linked records omits that target — without an
/// error, whatever else is linked.
pub proof fn dangling_link_tolerated(v: LedgerView, subject: ActionHash, target: ActionHash)
    ensures
        forall|i: int| 0 <= i < records_model(delete_model(v, target), subject).len()
            ==> (#[trigger] records_model(delete_model(v, target), subject)[i]).action_hash
                != target,
{
    let v1 = delete_model(v, target);
    lemma_tombstone_count_push(v.tombstones, target, target);
    assert(v1.is_dead(target));
    fetched_records_live(v1, subject);
}

/// Empty-input idempotence: a subject with no links fetches an empty
/// record sequence, not an error.
pub proof fn no_links_no_records(v: LedgerView, subject: ActionHash)
    requires
        targets_model(v.links, subject).len() == 0,
    ensures
        records_model(v, subject) == Seq::<ResolvedRecord>::empty(),
{
    assert(targets_model(v.links, subject)
        .map_values(|t: ActionHash| resolve_model(v, t))
        =~= Seq::<Option<ResolvedRecord>>::empty());
    assert(keep_present_model(Seq::<Option<ResolvedRecord>>::empty())
        == Seq::<ResolvedRecord>::empty());
}

/// Idempotent delete: deleting an existing action a second time succeeds
/// like the first (the action never leaves the log), and changes what no
/// reader can observe: every hash resolves after the second delete exactly
/// as it did after the first.
pub proof fn delete_idempotent(v: LedgerView, h: ActionHash)
    requires
        find_action(v.actions, h) is Some,
    ensures
        find_action(delete_model(v, h).actions, h) is Some,
        forall|q: ActionHash| resolve_model(delete_model(delete_model(v, h), h), q)
            == resolve_model(delete_model(v, h), q),
{
    let v1 = delete_model(v, h);
    let v2 = delete_model(v1, h);
    assert forall|q: ActionHash| resolve_model(v2, q) == resolve_model(v1, q) by {
        lemma_tombstone_count_push(v1.tombstones, h, q);
        lemma_tombstone_count_push(v.tombstones, h, q);
        assert(v2.is_dead(q) == v1.is_dead(q));
    }
}

/// Tombstone exclusion: when an agent creates two comments and then
/// deletes the first one's action, the agent's live projection is exactly
/// what it was before, extended by the second comment alone — the deleted
/// creation is excluded, every earlier comment is untouched.
pub proof fn tombstone_exclusion(v: LedgerView, agent: AgentId, c1: Comment, c2: Comment)
    requires
        v.wf(),
        v.next + 4 <= u64::MAX,
    ensures
        projection_model(
            delete_model(
                create_model(create_model(v, agent, c1).0, agent, c2).0,
                create_model(v, agent, c1).1,
            ),
            agent,
        ) == projection_model(v, agent).push(c2),
{
    let (v1, h1) = create_model(v, agent, c1);
    let (v2, h2) = create_model(v1, agent, c2);
    let v3 = delete_model(v2, h1);
    let eh1 = EntryHash(v.next);
    let eh2 = EntryHash(v1.next);
    let a1 = ActionRec { hash: h1, author: agent, entry_hash: eh1 };
    let a2 = ActionRec { hash: h2, author: agent, entry_hash: eh2 };
    let e1 = EntryRec { hash: eh1, comment: c1 };
    let e2 = EntryRec { hash: eh2, comment: c2 };
    assert(v1.next == v.next + 2);
    assert(h1.0 == v.next + 1 && h2.0 == v.next + 3);
    assert(v3.actions == v.actions.push(a1).push(a2));
    assert(v3.entries == v.entries.push(e1).push(e2));
    assert(v3.tombstones == v.tombstones.push(h1));

    // Nothing of the old state carries one of the four fresh tokens.
    assert forall|i: int| 0 <= i < v.actions.len()
        implies (#[trigger] v.actions[i]).hash != h1 && v.actions[i].hash != h2 by {
        assert(v.actions[i].hash.0 < v.next);
    }
    assert forall|i: int| 0 <= i < v.entries.len()
        implies (#[trigger] v.entries[i]).hash != eh1 && v.entries[i].hash != eh2 by {
        assert(v.entries[i].hash.0 < v.next);
    }
    lemma_find_action_absent(v.actions, h1);
    lemma_find_action_absent(v.actions, h2);
    assert forall|i: int| 0 <= i < v.tombstones.len()
        implies v.tombstones[i] != h1 && v.tombstones[i] != h2 by {
        assert(find_action(v.actions, #[trigger] v.tombstones[i]) is Some);
    }
    lemma_tombstone_count_zero(v.tombstones, h1);
    lemma_tombstone_count_zero(v.tombstones, h2);

    // The agent's activity after the three steps: the old activity, then
    // the two fresh creations.
    lemma_activity_push(v.actions, a1, agent);
    lemma_activity_push(v.actions.push(a1), a2, agent);
    let acts0 = activity_model(v.actions, agent);
    let acts3 = activity_model(v3.actions, agent);
    assert(acts3 == acts0.push(h1).push(h2));

    // The second creation survives: found, no tombstone, decodes to c2.
    lemma_find_action_push(v.actions, a1, h2);
    lemma_find_action_push(v.actions.push(a1), a2, h2);
    assert(find_action(v3.actions, h2) == Some(a2));
    lemma_tombstone_count_push(v.tombstones, h1, h2);
    assert(tombstone_count(v3.tombstones, h2) == 0);
    lemma_find_entry_absent(v.entries, eh2);
    lemma_find_entry_push(v.entries, e1, eh2);
    lemma_find_entry_push(v.entries.push(e1), e2, eh2);
    assert(find_entry(v3.entries, eh2) == Some(e2));
    assert(detail_model(v3, h2) == (ActionDetail::Resolved { tombstones: 0, comment: Some(c2) }));
    assert(live_one(detail_model(v3, h2)) == Some(c2));

    // The first creation is dead: its one tombstone excludes it.
    lemma_find_action_push(v.actions, a1, h1);
    lemma_find_action_push(v.actions.push(a1), a2, h1);
    assert(find_action(v3.actions, h1) == Some(a1));
    lemma_tombstone_count_push(v.tombstones, h1, h1);
    assert(tombstone_count(v3.tombstones, h1) == 1);
    assert(live_one(detail_model(v3, h1)) is None);

    // Every older action of the agent is untouched: same lookup, same
    // tombstones, same entry, hence the same fetched detail.
    assert forall|j: int| 0 <= j < acts0.len()
        implies detail_model(v3, #[trigger] acts0[j]) == detail_model(v, acts0[j]) by {
        let h = acts0[j];
        assert(acts0.contains(h));
        lemma_activity_member(v.actions, agent, h);
        let i = choose|i: int| 0 <= i < v.actions.len()
            && (#[trigger] v.actions[i]).hash == h && v.actions[i].author == agent;
        assert(v.actions[i].hash.0 < v.next);
        lemma_find_action_present(v.actions, h);
        let a = find_action(v.actions, h).unwrap();
        lemma_find_action_push(v.actions, a1, h);
        lemma_find_action_push(v.actions.push(a1), a2, h);
        assert(find_action(v3.actions, h) == Some(a));
        lemma_find_action_found(v.actions, h);
        let k = choose|k: int| 0 <= k < v.actions.len() && v.actions[k] == a;
        assert(v.actions[k].entry_hash.0 < v.next);
        assert(find_entry(v.entries, v.actions[k].entry_hash) is Some);
        lemma_find_entry_push(v.entries, e1, a.entry_hash);
        lemma_find_entry_push(v.entries.push(e1), e2, a.entry_hash);
        assert(find_entry(v3.entries, a.entry_hash) == find_entry(v.entries, a.entry_hash));
        lemma_tombstone_count_push(v.tombstones, h1, h);
        assert(tombstone_count(v3.tombstones, h) == tombstone_count(v.tombstones, h));
    }

    // Assemble: the projection after is the projection before plus c2.
    let m0 = acts0.map_values(|h: ActionHash| detail_model(v, h));
    let m0three = acts0.map_values(|h: ActionHash| detail_model(v3, h));
    let m3 = acts3.map_values(|h: ActionHash| detail_model(v3, h));
    assert(m0three =~= m0);
    assert(m3 =~= m0.push(detail_model(v3, h1)).push(detail_model(v3, h2)));
    lemma_live_comments_push(m0.push(detail_model(v3, h1)), detail_model(v3, h2));
    lemma_live_comments_push(m0, detail_model(v3, h1));
    assert(live_comments_model(m3) == live_comments_model(m0).push(c2));
    assert(projection_model(v3, agent) == live_comments_model(m3));
    assert(projection_model(v, agent) == live_comments_model(m0));
}

} // verus!
