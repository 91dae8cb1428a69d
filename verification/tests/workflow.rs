use sevenkey_global_bot::config::Config;
use sevenkey_global_bot::user::Game;
use sevenkey_global_bot::user::Ranks;
use sevenkey_global_bot::user::User;
use sevenkey_global_bot::verification::PendingVerifications;
use sevenkey_global_bot::verification::VerificationState;
use sevenkey_global_bot::workflow::begin_verification;
use sevenkey_global_bot::workflow::check_not_duplicate;
use sevenkey_global_bot::workflow::format_action_token;
use sevenkey_global_bot::workflow::parse_action_token;
use sevenkey_global_bot::workflow::record_prompt_posted;
use sevenkey_global_bot::workflow::select_country;
use sevenkey_global_bot::workflow::ActionKind;
use sevenkey_global_bot::workflow::CreatePlan;
use sevenkey_global_bot::workflow::VerificationError;

const REQUESTER: u64 = 42;
const ADMIN_CHANNEL: u64 = 11;
const VERIFICATION_CHANNEL: u64 = 22;

fn configured() -> Config {
    let mut config = Config::new();
    config.set_admin_channel(ADMIN_CHANNEL);
    config.set_verification_channel(VERIFICATION_CHANNEL);
    config.add_emoji_exception("france".to_string(), "fr".to_string());
    config
}

fn profile(country: Option<&str>) -> User {
    User {
        game: Game::Osu,
        user_id: 123,
        username: "alice".to_string(),
        country: country.map(|c| c.to_string()),
        ranks: Ranks { global: Some(10), country: Some(1) },
        avatar_url: "https://a.example/alice.png".to_string(),
        link: "https://osu.example/users/123".to_string(),
        playtime: Some(100),
        level: None,
    }
}

#[test]
fn action_tokens_round_trip() {
    assert_eq!(format_action_token(ActionKind::Verify, 5), "verify 5");
    assert_eq!(format_action_token(ActionKind::Deny, 5), "deny 5");
    assert_eq!(
        format_action_token(ActionKind::CountrySelect, 12),
        "GET-COUNTRY: 12"
    );
    for kind in [ActionKind::Verify, ActionKind::Deny, ActionKind::CountrySelect] {
        for id in [0, 1, 7, 12345, u64::MAX] {
            assert_eq!(
                parse_action_token(&format_action_token(kind, id)),
                Some((kind, id))
            );
        }
    }
    assert_eq!(parse_action_token("verify"), None);
    assert_eq!(parse_action_token("verify five"), None);
    assert_eq!(parse_action_token("approve 5"), None);
    assert_eq!(parse_action_token("verify 18446744073709551616"), None);
    assert_eq!(parse_action_token(""), None);
}

#[test]
fn duplicate_guard_rejects_claimed_account() {
    assert_eq!(
        check_not_duplicate(99, Some(42), None),
        Err(VerificationError::AlreadyClaimed(42))
    );
}

#[test]
fn duplicate_guard_rejects_already_verified_requester() {
    assert_eq!(
        check_not_duplicate(42, None, Some("alice".to_string())),
        Err(VerificationError::RequesterAlreadyVerified("alice".to_string()))
    );
    assert_eq!(
        check_not_duplicate(42, Some(42), Some("alice".to_string())),
        Err(VerificationError::RequesterAlreadyVerified("alice".to_string()))
    );
}

#[test]
fn duplicate_guard_passes_fresh_requests() {
    assert_eq!(check_not_duplicate(42, None, None), Ok(()));
}

#[test]
fn unconfigured_engine_reports_not_configured() {
    let mut pending = PendingVerifications::new();
    let config = Config::new();
    let r = begin_verification(
        &mut pending,
        &config,
        REQUESTER,
        "alice#1".to_string(),
        profile(Some("FR")),
        None,
        None,
    );
    assert_eq!(r.err(), Some(VerificationError::NotConfigured));
    assert_eq!(pending.len(), 0);
}

#[test]
fn duplicate_requests_do_not_touch_the_registry() {
    let mut pending = PendingVerifications::new();
    let config = configured();
    let r = begin_verification(
        &mut pending,
        &config,
        99,
        "bob#2".to_string(),
        profile(Some("FR")),
        Some(REQUESTER),
        None,
    );
    assert_eq!(r.err(), Some(VerificationError::AlreadyClaimed(REQUESTER)));
    assert_eq!(pending.len(), 0);
    // No id was issued for the aborted request: the next one still gets 0.
    let ok = begin_verification(
        &mut pending,
        &config,
        REQUESTER,
        "alice#1".to_string(),
        profile(Some("FR")),
        None,
        None,
    )
    .expect("a fresh request passes");
    assert_eq!(ok.0, 0);
}

#[test]
fn unknown_country_is_rejected_at_creation() {
    let mut pending = PendingVerifications::new();
    let config = configured();
    let r = begin_verification(
        &mut pending,
        &config,
        REQUESTER,
        "alice#1".to_string(),
        profile(Some("ZZ")),
        None,
        None,
    );
    assert_eq!(
        r.err(),
        Some(VerificationError::UnknownCountry("ZZ".to_string()))
    );
    assert_eq!(pending.len(), 0);
}

#[test]
fn approval_flow_with_known_country() {
    let mut pending = PendingVerifications::new();
    let config = configured();
    let (id, plan) = begin_verification(
        &mut pending,
        &config,
        REQUESTER,
        "alice#1".to_string(),
        profile(Some("FR")),
        None,
        None,
    )
    .expect("creation passes");
    assert_eq!(id, 0);
    assert_eq!(pending.len(), 1);
    let prompt = match plan {
        CreatePlan::Approval(p) => p,
        CreatePlan::Country(_) => panic!("the country is known"),
    };
    assert_eq!(prompt.record_id, 0);
    assert_eq!(prompt.admin_channel, ADMIN_CHANNEL);
    assert_eq!(prompt.status_channel, VERIFICATION_CHANNEL);
    assert_eq!(prompt.country_name, "France");
    assert_eq!(prompt.username, "alice");
    assert_eq!(prompt.verify_token, "verify 0");
    assert_eq!(prompt.deny_token, "deny 0");

    let record = pending.get(id).expect("the record is pending");
    assert_eq!(record.state, VerificationState::AwaitingDecision);

    record_prompt_posted(&mut pending, id, 1001, 1002).expect("the prompt was posted");

    let plan = pending
        .get(id)
        .expect("still pending")
        .apply(&config)
        .expect("the record is ready");
    assert_eq!(plan.role_name, "France 🇫🇷");
    assert_eq!(plan.member_role, "Member");
    assert_eq!(plan.nickname, "alice");
    assert_eq!(plan.status_message, 1001);
    assert_eq!(plan.verification_message, 1002);
    assert_eq!(plan.row.discord_id, REQUESTER);
    assert_eq!(plan.row.game, Game::Osu);
    assert_eq!(plan.row.player_id, 123);
    assert_eq!(plan.row.username, "alice");
    assert_eq!(plan.row.country, Some("FR".to_string()));

    // Every chat side effect succeeded: conclude the resolution.
    assert!(pending.remove(id).is_some());
    assert_eq!(pending.len(), 0);
}

#[test]
fn country_selection_flow() {
    let mut pending = PendingVerifications::new();
    let config = configured();
    let (id, plan) = begin_verification(
        &mut pending,
        &config,
        REQUESTER,
        "alice#1".to_string(),
        profile(None),
        None,
        None,
    )
    .expect("creation passes");
    let prompt = match plan {
        CreatePlan::Country(p) => p,
        CreatePlan::Approval(_) => panic!("no country is known yet"),
    };
    assert_eq!(prompt.record_id, id);
    assert_eq!(prompt.channel, VERIFICATION_CHANNEL);
    assert_eq!(prompt.select_token, "GET-COUNTRY: 0");
    assert_eq!(pending.len(), 1);
    assert_eq!(
        pending.get(id).unwrap().state,
        VerificationState::AwaitingCountry
    );

    // Any actor but the requester is turned away with no state change.
    let refused = select_country(&mut pending, &config, id, 99, "250".to_string());
    assert_eq!(refused.err(), Some(VerificationError::Unauthorized));
    let record = pending.get(id).unwrap();
    assert_eq!(record.state, VerificationState::AwaitingCountry);
    assert_eq!(record.user.country, None);

    // The requester's own selection moves the record on.
    let approval = select_country(&mut pending, &config, id, REQUESTER, "250".to_string())
        .expect("the requester may select");
    assert_eq!(approval.country_name, "France");
    assert_eq!(approval.verify_token, "verify 0");
    let record = pending.get(id).unwrap();
    assert_eq!(record.state, VerificationState::AwaitingDecision);
    assert_eq!(record.user.country, Some("250".to_string()));

    record_prompt_posted(&mut pending, id, 2001, 2002).expect("the prompt was posted");
    let plan = pending.get(id).unwrap().apply(&config).expect("ready");
    assert_eq!(plan.role_name, "France 🇫🇷");
    assert_eq!(plan.row.country, Some("250".to_string()));
}

#[test]
fn selecting_for_a_stale_id_fails_cleanly() {
    let mut pending = PendingVerifications::new();
    let config = configured();
    let r = select_country(&mut pending, &config, 7, REQUESTER, "250".to_string());
    assert_eq!(r.err(), Some(VerificationError::NotFound));
}

#[test]
fn selecting_an_unknown_country_changes_nothing() {
    let mut pending = PendingVerifications::new();
    let config = configured();
    let (id, _) = begin_verification(
        &mut pending,
        &config,
        REQUESTER,
        "alice#1".to_string(),
        profile(None),
        None,
        None,
    )
    .expect("creation passes");
    let r = select_country(&mut pending, &config, id, REQUESTER, "ZZ".to_string());
    assert_eq!(r.err(), Some(VerificationError::UnknownCountry("ZZ".to_string())));
    let record = pending.get(id).unwrap();
    assert_eq!(record.state, VerificationState::AwaitingCountry);
    assert_eq!(record.user.country, None);
}

#[test]
fn decisions_wait_for_the_country() {
    let mut pending = PendingVerifications::new();
    let config = configured();
    let (id, _) = begin_verification(
        &mut pending,
        &config,
        REQUESTER,
        "alice#1".to_string(),
        profile(None),
        None,
        None,
    )
    .expect("creation passes");
    let r = pending.get(id).unwrap().apply(&config);
    assert_eq!(r.err(), Some(VerificationError::NotReady));
    let r = pending.get(id).unwrap().deny();
    assert_eq!(r.err(), Some(VerificationError::NotReady));
    let r = record_prompt_posted(&mut pending, id, 1, 2);
    assert_eq!(r.err(), Some(VerificationError::NotReady));
}

#[test]
fn recording_messages_for_a_stale_id_fails_cleanly() {
    let mut pending = PendingVerifications::new();
    let r = record_prompt_posted(&mut pending, 7, 1, 2);
    assert_eq!(r.err(), Some(VerificationError::NotFound));
}

#[test]
fn decisions_wait_for_the_posted_messages() {
    let mut pending = PendingVerifications::new();
    let config = configured();
    let (id, _) = begin_verification(
        &mut pending,
        &config,
        REQUESTER,
        "alice#1".to_string(),
        profile(Some("FR")),
        None,
        None,
    )
    .expect("creation passes");
    let r = pending.get(id).unwrap().apply(&config);
    assert_eq!(r.err(), Some(VerificationError::NotReady));
}

#[test]
fn approval_without_an_emoji_keeps_the_record_for_a_retry() {
    let mut pending = PendingVerifications::new();
    let mut config = configured();
    assert!(config.remove_emoji_exception("france"));
    let (id, _) = begin_verification(
        &mut pending,
        &config,
        REQUESTER,
        "alice#1".to_string(),
        profile(Some("FR")),
        None,
        None,
    )
    .expect("creation passes");
    record_prompt_posted(&mut pending, id, 1001, 1002).expect("posted");
    let r = pending.get(id).unwrap().apply(&config);
    assert_eq!(
        r.err(),
        Some(VerificationError::NoEmojiForCountry("France".to_string()))
    );
    // The record stays pending, so the approval can be retried once an
    // override is registered.
    assert_eq!(pending.len(), 1);
    config.add_emoji_exception("france".to_string(), "fr".to_string());
    let plan = pending.get(id).unwrap().apply(&config).expect("retry passes");
    assert_eq!(plan.role_name, "France 🇫🇷");
}

#[test]
fn double_resolution_is_observed_exactly_once() {
    let mut pending = PendingVerifications::new();
    let config = configured();
    let (id, _) = begin_verification(
        &mut pending,
        &config,
        REQUESTER,
        "alice#1".to_string(),
        profile(Some("FR")),
        None,
        None,
    )
    .expect("creation passes");
    record_prompt_posted(&mut pending, id, 1001, 1002).expect("posted");

    // Two concurrent approve clicks: the registry serializes them.  The
    // first performs the side effects and removes the record.
    let first = pending.get(id).unwrap().apply(&config);
    assert!(first.is_ok());
    assert!(pending.remove(id).is_some());

    // The second observes the record already gone: a clean "already
    // resolved" outcome, with no side effects to perform.
    assert!(pending.get(id).is_none());
    assert!(pending.remove(id).is_none());
    assert_eq!(pending.len(), 0);
}

#[test]
fn denial_edits_and_deletes_without_persisting() {
    let mut pending = PendingVerifications::new();
    let config = configured();
    let (id, _) = begin_verification(
        &mut pending,
        &config,
        REQUESTER,
        "alice#1".to_string(),
        profile(Some("FR")),
        None,
        None,
    )
    .expect("creation passes");
    record_prompt_posted(&mut pending, id, 1001, 1002).expect("posted");
    let plan = pending.get(id).unwrap().deny().expect("ready");
    assert_eq!(plan.status_message, 1001);
    assert_eq!(plan.verification_message, 1002);
    assert_eq!(plan.requester_name, "alice#1");
    assert!(pending.remove(id).is_some());
    assert_eq!(pending.len(), 0);
}
