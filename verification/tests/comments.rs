use comments_core::ledger::Ledger;
use comments_core::links::keep_present;
use comments_core::projection::keep_live;
use comments_core::types::{ActionHash, ActionDetail, AgentId, Comment, StoreError};

fn comment(text: &str) -> Comment {
    Comment { text: String::from(text) }
}

#[test]
fn round_trip_create_resolve() {
    let mut ledger = Ledger::new();
    let author = AgentId(1);
    let hash = ledger.create(author, comment("hi")).unwrap();
    let record = ledger.resolve(hash).expect("created comment must resolve");
    assert_eq!(record.action_hash, hash);
    assert_eq!(record.author, author);
    assert_eq!(record.comment, comment("hi"));
    assert_ne!(record.entry_hash.0, record.action_hash.0);
}

#[test]
fn resolve_unknown_hash_is_none() {
    let ledger = Ledger::new();
    assert!(ledger.resolve(ActionHash(3)).is_none());
}

#[test]
fn resolve_deleted_action_is_none() {
    let mut ledger = Ledger::new();
    let hash = ledger.create(AgentId(1), comment("gone")).unwrap();
    ledger.delete(hash).unwrap();
    assert!(ledger.resolve(hash).is_none());
}

#[test]
fn link_then_targets_contains_target() {
    let mut ledger = Ledger::new();
    let subject = ActionHash(40);
    let hash = ledger.create(AgentId(1), comment("c")).unwrap();
    ledger.link(subject, hash).unwrap();
    let targets = ledger.targets_of(subject);
    assert_eq!(targets, vec![hash]);
}

#[test]
fn duplicate_links_both_persist() {
    let mut ledger = Ledger::new();
    let subject = ActionHash(40);
    let hash = ledger.create(AgentId(1), comment("c")).unwrap();
    ledger.link(subject, hash).unwrap();
    ledger.link(subject, hash).unwrap();
    assert_eq!(ledger.targets_of(subject), vec![hash, hash]);
}

#[test]
fn create_comment_links_subject_to_action() {
    let mut ledger = Ledger::new();
    let subject = ActionHash(77);
    let hash = ledger.create_comment(AgentId(2), subject, String::from("on it")).unwrap();
    assert_eq!(ledger.targets_of(subject), vec![hash]);
    let records = ledger.get_comments_on(subject);
    assert_eq!(records.len(), 1);
    assert_eq!(records[0].comment, comment("on it"));
    assert_eq!(records[0].action_hash, hash);
}

#[test]
fn no_links_empty_records() {
    let ledger = Ledger::new();
    assert!(ledger.get_comments_on(ActionHash(5)).is_empty());
}

#[test]
fn dangling_link_dropped_without_error() {
    let mut ledger = Ledger::new();
    let subject = ActionHash(8);
    let hash = ledger.create_comment(AgentId(1), subject, String::from("soon gone")).unwrap();
    assert_eq!(ledger.get_comments_on(subject).len(), 1);
    ledger.delete_comment(hash).unwrap();
    assert!(ledger.get_comments_on(subject).is_empty());
}

#[test]
fn delete_missing_action_not_found() {
    let mut ledger = Ledger::new();
    assert_eq!(ledger.delete_comment(ActionHash(7)), Err(StoreError::NotFound));
}

#[test]
fn delete_twice_is_not_an_error() {
    let mut ledger = Ledger::new();
    let hash = ledger.create(AgentId(1), comment("x")).unwrap();
    assert_eq!(ledger.delete_comment(hash), Ok(()));
    assert_eq!(ledger.delete_comment(hash), Ok(()));
}

#[test]
fn tombstone_excludes_deleted_creation() {
    let mut ledger = Ledger::new();
    let agent = AgentId(9);
    let subject = ActionHash(1000);
    let first = ledger.create_comment(agent, subject, String::from("first")).unwrap();
    let _second = ledger.create_comment(agent, subject, String::from("second")).unwrap();
    ledger.delete_comment(first).unwrap();
    let live = ledger.get_all_comments_for_agent(agent).unwrap();
    assert_eq!(live, vec![comment("second")]);
}

#[test]
fn projection_scans_only_the_given_agent() {
    let mut ledger = Ledger::new();
    let subject = ActionHash(1);
    ledger.create_comment(AgentId(1), subject, String::from("from a")).unwrap();
    ledger.create_comment(AgentId(2), subject, String::from("from b")).unwrap();
    assert_eq!(ledger.get_all_comments_for_agent(AgentId(1)).unwrap(), vec![comment("from a")]);
    assert_eq!(ledger.get_all_comments_for_agent(AgentId(2)).unwrap(), vec![comment("from b")]);
    assert!(ledger.get_all_comments_for_agent(AgentId(3)).unwrap().is_empty());
}

#[test]
fn projection_keeps_feed_order() {
    let mut ledger = Ledger::new();
    let agent = AgentId(4);
    let subject = ActionHash(2);
    for text in ["one", "two", "three"] {
        ledger.create_comment(agent, subject, String::from(text)).unwrap();
    }
    assert_eq!(
        ledger.get_all_comments_for_agent(agent).unwrap(),
        vec![comment("one"), comment("two"), comment("three")],
    );
}

#[test]
fn scenario_create_read_delete_read() {
    let mut ledger = Ledger::new();
    let agent_a = AgentId(11);
    let subject_x = ActionHash(500);
    let h1 = ledger.create_comment(agent_a, subject_x, String::from("hi")).unwrap();
    let records = ledger.get_comments_on(subject_x);
    assert_eq!(records.len(), 1);
    assert_eq!(records[0].comment, comment("hi"));
    ledger.delete_comment(h1).unwrap();
    assert!(ledger.get_comments_on(subject_x).is_empty());
    assert!(ledger.get_all_comments_for_agent(agent_a).unwrap().is_empty());
}

#[test]
fn keep_present_drops_absent_items() {
    let kept = keep_present(vec![Some(1u64), None, Some(2u64), None]);
    assert_eq!(kept, vec![1u64, 2u64]);
}

#[test]
fn keep_present_of_nothing_is_empty() {
    let kept: Vec<u64> = keep_present(Vec::new());
    assert!(kept.is_empty());
}

#[test]
fn keep_live_skips_dead_undecodable_and_unresolved() {
    let details = vec![
        ActionDetail::Resolved { tombstones: 0, comment: Some(comment("kept")) },
        ActionDetail::Resolved { tombstones: 1, comment: Some(comment("tombstoned")) },
        ActionDetail::Resolved { tombstones: 0, comment: None },
        ActionDetail::Unresolved,
        ActionDetail::Resolved { tombstones: 0, comment: Some(comment("also kept")) },
    ];
    assert_eq!(keep_live(details), vec![comment("kept"), comment("also kept")]);
}
