use sevenkey_global_bot::user::Game;
use sevenkey_global_bot::user::Ranks;
use sevenkey_global_bot::user::User;
use sevenkey_global_bot::verification::PendingVerifications;
use sevenkey_global_bot::verification::VerificationInfo;
use sevenkey_global_bot::verification::VerificationState;

fn sample_record(id: u64) -> VerificationInfo {
    VerificationInfo {
        id,
        requester_id: 42,
        requester_name: "alice#1".to_string(),
        user: User {
            game: Game::Osu,
            user_id: 123,
            username: "alice".to_string(),
            country: Some("FR".to_string()),
            ranks: Ranks { global: Some(10), country: Some(1) },
            avatar_url: "https://a.example/alice.png".to_string(),
            link: "https://osu.example/users/123".to_string(),
            playtime: Some(100),
            level: None,
        },
        status_message: None,
        verification_message: None,
        state: VerificationState::AwaitingDecision,
    }
}

#[test]
fn issued_ids_are_distinct_and_increasing() {
    let mut pending = PendingVerifications::new();
    let a = pending.use_current_id();
    let b = pending.use_current_id();
    let c = pending.use_current_id();
    assert_eq!(a, 0);
    assert_eq!(b, 1);
    assert_eq!(c, 2);
    assert!(a < b && b < c);
    assert_eq!(pending.len(), 0);
}

#[test]
fn insert_under_fresh_id_always_succeeds() {
    let mut pending = PendingVerifications::new();
    for _ in 0..5 {
        let id = pending.use_current_id();
        assert!(pending.insert(sample_record(id)).is_ok());
    }
    assert_eq!(pending.len(), 5);
}

#[test]
fn insert_under_occupied_id_fails_and_returns_the_record() {
    let mut pending = PendingVerifications::new();
    let id = pending.use_current_id();
    assert!(pending.insert(sample_record(id)).is_ok());
    let second = sample_record(id);
    match pending.insert(second) {
        Ok(()) => panic!("second insert under the same id must fail"),
        Err(returned) => assert_eq!(returned.id, id),
    }
    assert_eq!(pending.len(), 1);
}

#[test]
fn get_finds_pending_records_and_stale_ids_fail_cleanly() {
    let mut pending = PendingVerifications::new();
    let id = pending.use_current_id();
    assert!(pending.get(id).is_none());
    assert!(pending.insert(sample_record(id)).is_ok());
    let found = pending.get(id).expect("the record was just inserted");
    assert_eq!(found.id, id);
    assert_eq!(found.requester_id, 42);
    assert!(pending.get(id + 1).is_none());
}

#[test]
fn removal_happens_exactly_once() {
    let mut pending = PendingVerifications::new();
    let id = pending.use_current_id();
    assert!(pending.insert(sample_record(id)).is_ok());
    assert_eq!(pending.len(), 1);
    let first = pending.remove(id);
    assert!(first.is_some());
    assert_eq!(first.unwrap().id, id);
    let second = pending.remove(id);
    assert!(second.is_none());
    assert_eq!(pending.len(), 0);
}

#[test]
fn ids_are_not_reused_after_removal() {
    let mut pending = PendingVerifications::new();
    let id = pending.use_current_id();
    assert!(pending.insert(sample_record(id)).is_ok());
    assert!(pending.remove(id).is_some());
    let next = pending.use_current_id();
    assert_eq!(next, id + 1);
}

#[test]
fn default_registry_is_empty() {
    let mut pending = PendingVerifications::default();
    assert_eq!(pending.len(), 0);
    assert_eq!(pending.use_current_id(), 0);
}
