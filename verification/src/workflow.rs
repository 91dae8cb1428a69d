//! The verification workflow engine: the error taxonomy, the duplicate
//! guard, and the state transitions that drive a request from creation
//! through optional country selection to approval or denial.  Transitions
//! decide and update the registry; the side effects they call for are handed
//! back as plans that the chat-platform glue performs.

use crate::config::Config;
use crate::country_entry;
use crate::country_from_code;
use crate::roles::role_name_for;
use crate::roles::role_name_ok;
use crate::roles::role_name_spec;
use crate::text::dec_digits;
use crate::text::u64_to_dec;
use crate::user::User;
use crate::user::UserRow;
use crate::verification::PendingVerifications;
use crate::verification::VerificationInfo;
use crate::verification::VerificationState;
use vstd::prelude::*;

verus! {

/// Everything the workflow can report instead of proceeding.  No condition
/// here terminates the process; each is surfaced to the initiating user or
/// channel.
#[derive(Clone, Debug, PartialEq, Eq)]
pub enum VerificationError {
    /// The admin or verification channel is not configured.
    NotConfigured,
    /// The game account is already claimed by the given chat identity.
    AlreadyClaimed(u64),
    /// The requester is already verified under the given username.
    RequesterAlreadyVerified(String),
    /// The given string does not name a country.
    UnknownCountry(String),
    /// No emoji was found for the named country.
    NoEmojiForCountry(String),
    /// Someone other than the requester tried to select the country.
    Unauthorized,
    /// No pending record carries the given id.
    NotFound,
    /// The record is not in the state the action needs.
    NotReady,
}

/// The duplicate guard: decides whether a verification request may proceed,
/// given the two durable-store lookups — the chat identity that already
/// claims the same game account, if any, and the username under which the
/// requester is already verified, if any.  Both checks run before any
/// chat-server side effect.
pub fn check_not_duplicate(
    requester_id: u64,
    claimed_by: Option<u64>,
    existing_username: Option<String>,
) -> (r: Result<(), VerificationError>)
    ensures
        match r {
            Ok(_) => (claimed_by is None || claimed_by == Some(requester_id))
                && existing_username is None,
            Err(e) => match e {
                VerificationError::AlreadyClaimed(other) => claimed_by == Some(other) && other
                    != requester_id,
                VerificationError::RequesterAlreadyVerified(u) => (claimed_by is None
                    || claimed_by == Some(requester_id)) && existing_username == Some(u),
                _ => false,
            },
        },
{
    if let Some(other) = claimed_by {
        if other != requester_id {
            return Err(VerificationError::AlreadyClaimed(other));
        }
    }
    if let Some(u) = existing_username {
        return Err(VerificationError::RequesterAlreadyVerified(u));
    }
    Ok(())
}

// --- correlation tokens ---

/// The action a chat-UI affordance stands for, embedded in its token
/// together with the record id it concerns.
#[derive(Clone, Copy, Debug, PartialEq, Eq, Structural)]
pub enum ActionKind {
    /// An admin approves the request.
    Verify,
    /// An admin denies the request.
    Deny,
    /// The requester picks a country.
    CountrySelect,
}

/// The machine token marking each action kind.
pub open spec fn action_prefix(k: ActionKind) -> Seq<char> {
    match k {
        ActionKind::Verify => "verify"@,
        ActionKind::Deny => "deny"@,
        ActionKind::CountrySelect => "GET-COUNTRY:"@,
    }
}

/// The token embedded in a chat-UI affordance: the action kind's prefix, a
/// space, and the record id in decimal.
pub open spec fn action_token(k: ActionKind, id: u64) -> Seq<char> {
    action_prefix(k) + seq![' '] + dec_digits(id as nat)
}

/// Renders the token for an action on a record.
pub fn format_action_token(k: ActionKind, id: u64) -> (r: String)
    ensures
        r@ == action_token(k, id),
{
    let mut s = match k {
        ActionKind::Verify => "verify".to_owned(),
        ActionKind::Deny => "deny".to_owned(),
        ActionKind::CountrySelect => "GET-COUNTRY:".to_owned(),
    };
    crate::text::push_char(&mut s, ' ');
    let digits = u64_to_dec(id);
    let r = s.concat(digits.as_str());
    proof {
        assert(r@ =~= action_token(k, id));
    }
    r
}

/// The action kind a token prefix names.
pub open spec fn kind_of_prefix(p: Seq<char>) -> Option<ActionKind> {
    if p == "verify"@ {
        Some(ActionKind::Verify)
    } else if p == "deny"@ {
        Some(ActionKind::Deny)
    } else if p == "GET-COUNTRY:"@ {
        Some(ActionKind::CountrySelect)
    } else {
        None
    }
}

/// What a string yields when read as an action token: the part before the
/// first space must name an action kind, the part after it must be a
/// decimal record id.
pub open spec fn parse_action_token_spec(s: Seq<char>) -> Option<(ActionKind, u64)> {
    match crate::text::first_space(s) {
        None => None,
        Some(j) => match kind_of_prefix(s.take(j)) {
            None => None,
            Some(k) => {
                let rest = s.skip(j + 1);
                if rest.len() > 0 && crate::text::all_digits(rest) && crate::text::dec_value(rest)
                    <= u64::MAX {
                    Some((k, crate::text::dec_value(rest) as u64))
                } else {
                    None
                }
            },
        },
    }
}

/// Reads an action token back into the action kind and the record id.
pub fn parse_action_token(s: &str) -> (r: Option<(ActionKind, u64)>)
    ensures
        r == parse_action_token_spec(s@),
{
    let n = s.unicode_len();
    let j = match crate::text::find_space(s) {
        Some(j) => j,
        None => {
            return None;
        },
    };
    let prefix = s.substring_char(0, j);
    proof {
        assert(prefix@ =~= s@.take(j as int));
    }
    let kind = {
        let p = prefix.to_owned();
        if p == "verify".to_owned() {
            ActionKind::Verify
        } else if p == "deny".to_owned() {
            ActionKind::Deny
        } else if p == "GET-COUNTRY:".to_owned() {
            ActionKind::CountrySelect
        } else {
            return None;
        }
    };
    let rest = s.substring_char(j + 1, n);
    proof {
        assert(rest@ =~= s@.skip(j + 1));
    }
    match crate::text::parse_u64(rest) {
        Some(v) => Some((kind, v)),
        None => None,
    }
}

/// Law: a formatted action token reads back to exactly the action kind and
/// record id it was formatted from.
pub proof fn lemma_action_token_round_trip(k: ActionKind, id: u64)
    ensures
        parse_action_token_spec(action_token(k, id)) == Some((k, id)),
{
    reveal_strlit("verify");
    reveal_strlit("deny");
    reveal_strlit("GET-COUNTRY:");
    let s = action_token(k, id);
    let p = action_prefix(k);
    let digits = dec_digits(id as nat);
    crate::text::lemma_dec_digits_wf(id as nat);
    crate::text::lemma_dec_digits_value(id as nat);
    assert(s[p.len() as int] == ' ');
    assert(forall|t: int| 0 <= t < p.len() ==> s[t] == p[t]);
    assert(forall|t: int| 0 <= t < p.len() ==> p[t] != ' ');
    crate::text::lemma_first_space_found(s, p.len() as int);
    assert(s.take(p.len() as int) =~= p);
    assert(kind_of_prefix(p) == Some(k));
    assert(s.skip(p.len() as int + 1) =~= digits);
}

// --- side-effect plans ---

/// The side effects that move a record into `AwaitingDecision`: post the
/// admin approval prompt carrying the two decision tokens, and post the
/// requester-facing status message, titled pending.
pub struct ApprovalPrompt {
    /// The record the prompt concerns.
    pub record_id: u64,
    /// Where the approval prompt goes.
    pub admin_channel: u64,
    /// Where the status message goes.
    pub status_channel: u64,
    /// The requester's display name.
    pub requester_name: String,
    /// The profile's username.
    pub username: String,
    /// The display name of the profile's country.
    pub country_name: String,
    /// Token of the approve affordance.
    pub verify_token: String,
    /// Token of the deny affordance.
    pub deny_token: String,
}

/// The side effect for a record created without a country: post the
/// country-selection affordance, keyed by the record id.
pub struct CountryPrompt {
    /// The record the prompt concerns.
    pub record_id: u64,
    /// Where the prompt goes.
    pub channel: u64,
    /// The requester's display name.
    pub requester_name: String,
    /// Token of the selection affordance.
    pub select_token: String,
}

/// What creation asks the chat glue to do next.
pub enum CreatePlan {
    /// The country is known: prompt the admins.
    Approval(ApprovalPrompt),
    /// The country is unknown: prompt the requester.
    Country(CountryPrompt),
}

/// The side effects of an approval: create the role if missing, grant it
/// and the baseline member role, rename the member, mark the status message
/// accepted, delete the prompt, persist the row.
pub struct ApprovalPlan {
    /// The country role to ensure and grant.
    pub role_name: String,
    /// The baseline role to grant.
    pub member_role: String,
    /// The nickname to set: the profile username.
    pub nickname: String,
    /// The requester's display name.
    pub requester_name: String,
    /// The status message to edit to accepted.
    pub status_message: u64,
    /// The approval prompt to delete.
    pub verification_message: u64,
    /// The row to persist to the durable users table.
    pub row: UserRow,
}

/// The side effects of a denial: mark the status message denied and delete
/// the prompt.  No role or persistence side effects.
pub struct DenyPlan {
    /// The requester's display name.
    pub requester_name: String,
    /// The status message to edit to denied.
    pub status_message: u64,
    /// The approval prompt to delete.
    pub verification_message: u64,
}

// --- transitions ---

/// Both channels the engine needs are configured.
pub open spec fn configured(config: Config) -> bool {
    config.channels.admin_channel is Some && config.channels.verification_channel is Some
}

/// The record that creation stores: prompt handles absent, state according
/// to whether the profile carries a country.
pub open spec fn new_record(
    id: u64,
    requester_id: u64,
    requester_name: String,
    user: User,
) -> VerificationInfo {
    VerificationInfo {
        id,
        requester_id,
        requester_name,
        user,
        status_message: None,
        verification_message: None,
        state: if user.country is Some {
            VerificationState::AwaitingDecision
        } else {
            VerificationState::AwaitingCountry
        },
    }
}

/// A record after country selection: the chosen country set, awaiting the
/// admin decision, everything else untouched.
pub open spec fn with_country(info: VerificationInfo, code: String) -> VerificationInfo {
    VerificationInfo {
        user: User { country: Some(code), ..info.user },
        state: VerificationState::AwaitingDecision,
        ..info
    }
}

/// Creation: checks the configuration, runs the duplicate guard over the
/// two durable-store lookups, and — when everything passes — issues a fresh
/// id, stores the record, and hands back the prompt to post: the approval
/// prompt when the profile carries a country, the country prompt when it
/// does not.  On any refusal the registry is left exactly as it was.
pub fn begin_verification(
    pending: &mut PendingVerifications,
    config: &Config,
    requester_id: u64,
    requester_name: String,
    user: User,
    claimed_by: Option<u64>,
    existing_username: Option<String>,
) -> (r: Result<(u64, CreatePlan), VerificationError>)
    requires
        old(pending).wf(),
        old(pending).next_id() < u64::MAX,
    ensures
        final(pending).wf(),
        match r {
            Ok((id, plan)) => {
                &&& configured(*config)
                &&& claimed_by is None || claimed_by == Some(requester_id)
                &&& existing_username is None
                &&& id == old(pending).next_id()
                &&& final(pending).next_id() == id + 1
                &&& !old(pending).records().dom().contains(id)
                &&& final(pending).records() == old(pending).records().insert(
                    id,
                    new_record(id, requester_id, requester_name, user),
                )
                &&& match plan {
                    CreatePlan::Approval(p) => {
                        &&& user.country matches Some(code)
                        &&& country_entry(code@) matches Some(e) && p.country_name@ == e.1
                        &&& p.record_id == id
                        &&& p.admin_channel == config.channels.admin_channel->0
                        &&& p.status_channel == config.channels.verification_channel->0
                        &&& p.requester_name == requester_name
                        &&& p.username == user.username
                        &&& p.verify_token@ == action_token(ActionKind::Verify, id)
                        &&& p.deny_token@ == action_token(ActionKind::Deny, id)
                    },
                    CreatePlan::Country(p) => {
                        &&& user.country is None
                        &&& p.record_id == id
                        &&& p.channel == config.channels.verification_channel->0
                        &&& p.requester_name == requester_name
                        &&& p.select_token@ == action_token(ActionKind::CountrySelect, id)
                    },
                }
            },
            Err(e) => {
                &&& final(pending).records() == old(pending).records()
                &&& final(pending).next_id() == old(pending).next_id()
                &&& match e {
                    VerificationError::NotConfigured => !configured(*config),
                    VerificationError::AlreadyClaimed(other) => configured(*config) && claimed_by
                        == Some(other) && other != requester_id,
                    VerificationError::RequesterAlreadyVerified(u) => configured(*config) && (
                    claimed_by is None || claimed_by == Some(requester_id)) && existing_username
                        == Some(u),
                    VerificationError::UnknownCountry(c) => {
                        &&& configured(*config)
                        &&& claimed_by is None || claimed_by == Some(requester_id)
                        &&& existing_username is None
                        &&& user.country matches Some(code) && c@ == code@ && country_entry(code@) is None
                    },
                    _ => false,
                }
            },
        },
{
    let admin_channel = match config.channels.admin_channel {
        Some(a) => a,
        None => {
            return Err(VerificationError::NotConfigured);
        },
    };
    let status_channel = match config.channels.verification_channel {
        Some(v) => v,
        None => {
            return Err(VerificationError::NotConfigured);
        },
    };
    match check_not_duplicate(requester_id, claimed_by, existing_username) {
        Ok(_) => {},
        Err(e) => {
            return Err(e);
        },
    }
    let country_name: Option<String> = match &user.country {
        Some(code) => match country_from_code(code.as_str()) {
            Some(n) => Some(n),
            None => {
                return Err(VerificationError::UnknownCountry(code.clone()));
            },
        },
        None => None,
    };
    let id = pending.use_current_id();
    let requester_name_for_plan = requester_name.clone();
    let username_for_plan = user.username.clone();
    let state = match &user.country {
        Some(_) => VerificationState::AwaitingDecision,
        None => VerificationState::AwaitingCountry,
    };
    let info = VerificationInfo {
        id,
        requester_id,
        requester_name,
        user,
        status_message: None,
        verification_message: None,
        state,
    };
    match pending.insert(info) {
        Ok(_) => {},
        Err(_) => {
            // The id was issued a moment ago, so nothing can sit under it.
            proof {
                assert(old(pending).records().dom().contains(id));
                assert(false);
            }
            return Err(VerificationError::NotFound);
        },
    }
    match country_name {
        Some(cn) => Ok(
            (
                id,
                CreatePlan::Approval(
                    ApprovalPrompt {
                        record_id: id,
                        admin_channel,
                        status_channel,
                        requester_name: requester_name_for_plan,
                        username: username_for_plan,
                        country_name: cn,
                        verify_token: format_action_token(ActionKind::Verify, id),
                        deny_token: format_action_token(ActionKind::Deny, id),
                    },
                ),
            ),
        ),
        None => Ok(
            (
                id,
                CreatePlan::Country(
                    CountryPrompt {
                        record_id: id,
                        channel: status_channel,
                        requester_name: requester_name_for_plan,
                        select_token: format_action_token(ActionKind::CountrySelect, id),
                    },
                ),
            ),
        ),
    }
}

/// Country selection: an external event carrying a record id, the acting
/// chat identity and the chosen country.  Only the original requester may
/// select; any other actor is refused with no state change.  On success the
/// record carries the country, enters `AwaitingDecision`, and the approval
/// prompt to post is handed back.  On any refusal the registry is left
/// exactly as it was.
pub fn select_country(
    pending: &mut PendingVerifications,
    config: &Config,
    id: u64,
    actor_id: u64,
    country_code: String,
) -> (r: Result<ApprovalPrompt, VerificationError>)
    requires
        old(pending).wf(),
    ensures
        final(pending).wf(),
        final(pending).next_id() == old(pending).next_id(),
        match r {
            Ok(plan) => {
                &&& old(pending).records().dom().contains(id)
                &&& old(pending).records()[id].state is AwaitingCountry
                &&& actor_id == old(pending).records()[id].requester_id
                &&& configured(*config)
                &&& country_entry(country_code@) matches Some(e) && plan.country_name@ == e.1
                &&& final(pending).records() == old(pending).records().insert(
                    id,
                    with_country(old(pending).records()[id], country_code),
                )
                &&& plan.record_id == id
                &&& plan.admin_channel == config.channels.admin_channel->0
                &&& plan.status_channel == config.channels.verification_channel->0
                &&& plan.requester_name == old(pending).records()[id].requester_name
                &&& plan.username == old(pending).records()[id].user.username
                &&& plan.verify_token@ == action_token(ActionKind::Verify, id)
                &&& plan.deny_token@ == action_token(ActionKind::Deny, id)
            },
            Err(e) => {
                &&& final(pending).records() == old(pending).records()
                &&& match e {
                    VerificationError::NotFound => !old(pending).records().dom().contains(id),
                    VerificationError::Unauthorized => old(pending).records().dom().contains(id)
                        && actor_id != old(pending).records()[id].requester_id,
                    VerificationError::NotReady => {
                        &&& old(pending).records().dom().contains(id)
                        &&& actor_id == old(pending).records()[id].requester_id
                        &&& old(pending).records()[id].state is AwaitingDecision
                    },
                    VerificationError::NotConfigured => {
                        &&& old(pending).records().dom().contains(id)
                        &&& actor_id == old(pending).records()[id].requester_id
                        &&& old(pending).records()[id].state is AwaitingCountry
                        &&& !configured(*config)
                    },
                    VerificationError::UnknownCountry(c) => {
                        &&& old(pending).records().dom().contains(id)
                        &&& actor_id == old(pending).records()[id].requester_id
                        &&& old(pending).records()[id].state is AwaitingCountry
                        &&& configured(*config)
                        &&& c@ == country_code@
                        &&& country_entry(country_code@) is None
                    },
                    _ => false,
                }
            },
        },
{
    match pending.get(id) {
        None => {
            return Err(VerificationError::NotFound);
        },
        Some(info) => {
            if actor_id != info.requester_id {
                return Err(VerificationError::Unauthorized);
            }
            match info.state {
                VerificationState::AwaitingDecision => {
                    return Err(VerificationError::NotReady);
                },
                VerificationState::AwaitingCountry => {},
            }
        },
    }
    let admin_channel = match config.channels.admin_channel {
        Some(a) => a,
        None => {
            return Err(VerificationError::NotConfigured);
        },
    };
    let status_channel = match config.channels.verification_channel {
        Some(v) => v,
        None => {
            return Err(VerificationError::NotConfigured);
        },
    };
    let country_name = match country_from_code(country_code.as_str()) {
        Some(n) => n,
        None => {
            return Err(VerificationError::UnknownCountry(country_code));
        },
    };
    let mut info = match pending.remove(id) {
        Some(i) => i,
        None => {
            // The record was found just above and nothing removed it since.
            proof {
                assert(false);
            }
            return Err(VerificationError::NotFound);
        },
    };
    let requester_name = info.requester_name.clone();
    let username = info.user.username.clone();
    info.user.country = Some(country_code);
    info.state = VerificationState::AwaitingDecision;
    proof {
        assert(old(pending).records().dom().contains(id));
        assert(info == with_country(old(pending).records()[id], country_code));
    }
    pending.put(info);
    proof {
        assert(pending.records() =~= old(pending).records().insert(
            id,
            with_country(old(pending).records()[id], country_code),
        ));
    }
    Ok(
        ApprovalPrompt {
            record_id: id,
            admin_channel,
            status_channel,
            requester_name,
            username,
            country_name,
            verify_token: format_action_token(ActionKind::Verify, id),
            deny_token: format_action_token(ActionKind::Deny, id),
        },
    )
}

/// Records that the approval prompt and the status message were posted for
/// a record awaiting its decision: the two message handles are stored so
/// that the decision can edit and delete them later.
pub fn record_prompt_posted(
    pending: &mut PendingVerifications,
    id: u64,
    status_message: u64,
    verification_message: u64,
) -> (r: Result<(), VerificationError>)
    requires
        old(pending).wf(),
    ensures
        final(pending).wf(),
        final(pending).next_id() == old(pending).next_id(),
        match r {
            Ok(_) => {
                &&& old(pending).records().dom().contains(id)
                &&& old(pending).records()[id].state is AwaitingDecision
                &&& final(pending).records() == old(pending).records().insert(
                    id,
                    (VerificationInfo {
                        status_message: Some(status_message),
                        verification_message: Some(verification_message),
                        ..old(pending).records()[id]
                    }),
                )
            },
            Err(e) => {
                &&& final(pending).records() == old(pending).records()
                &&& match e {
                    VerificationError::NotFound => !old(pending).records().dom().contains(id),
                    VerificationError::NotReady => old(pending).records().dom().contains(id)
                        && old(pending).records()[id].state is AwaitingCountry,
                    _ => false,
                }
            },
        },
{
    match pending.get(id) {
        None => {
            return Err(VerificationError::NotFound);
        },
        Some(info) => {
            match info.state {
                VerificationState::AwaitingCountry => {
                    return Err(VerificationError::NotReady);
                },
                VerificationState::AwaitingDecision => {},
            }
        },
    }
    let mut info = match pending.remove(id) {
        Some(i) => i,
        None => {
            // The record was found just above and nothing removed it since.
            proof {
                assert(false);
            }
            return Err(VerificationError::NotFound);
        },
    };
    info.status_message = Some(status_message);
    info.verification_message = Some(verification_message);
    proof {
        assert(old(pending).records().dom().contains(id));
    }
    pending.put(info);
    proof {
        assert(pending.records() =~= old(pending).records().insert(
            id,
            (VerificationInfo {
                status_message: Some(status_message),
                verification_message: Some(verification_message),
                ..old(pending).records()[id]
            }),
        ));
    }
    Ok(())
}

/// A record on which a decision can act: the country is known, the admin
/// decision is awaited, and both messages were posted.
pub open spec fn decision_ready(info: VerificationInfo) -> bool {
    &&& info.state is AwaitingDecision
    &&& info.user.country is Some
    &&& info.status_message is Some
    &&& info.verification_message is Some
}

impl VerificationInfo {
    /// Approval: decides the side effects of approving this record — the
    /// country role resolved through the configured overrides, the baseline
    /// member role, the nickname, the messages to edit and delete, and the
    /// row to persist.  The caller removes the record from the registry only
    /// once every side effect succeeded, so a failed approval stays
    /// retryable.
    pub fn apply(&self, config: &Config) -> (r: Result<ApprovalPlan, VerificationError>)
        ensures
            match r {
                Ok(plan) => {
                    &&& decision_ready(*self)
                    &&& country_entry(self.user.country->0@) matches Some(e)
                    &&& role_name_ok(e.1, config.emoji_exceptions@)
                    &&& plan.role_name@ == role_name_spec(e.1, config.emoji_exceptions@)
                    &&& plan.member_role@ == "Member"@
                    &&& plan.nickname == self.user.username
                    &&& plan.requester_name == self.requester_name
                    &&& plan.status_message == self.status_message->0
                    &&& plan.verification_message == self.verification_message->0
                    &&& plan.row == (UserRow {
                        discord_id: self.requester_id,
                        game: self.user.game,
                        player_id: self.user.user_id,
                        username: self.user.username,
                        country: self.user.country,
                    })
                },
                Err(e) => match e {
                    VerificationError::NotReady => !decision_ready(*self),
                    VerificationError::UnknownCountry(c) => {
                        &&& decision_ready(*self)
                        &&& c@ == self.user.country->0@
                        &&& country_entry(self.user.country->0@) is None
                    },
                    VerificationError::NoEmojiForCountry(c) => {
                        &&& decision_ready(*self)
                        &&& country_entry(self.user.country->0@) matches Some(e2)
                        &&& !role_name_ok(e2.1, config.emoji_exceptions@)
                        &&& c@ == e2.1
                    },
                    _ => false,
                },
            },
    {
        match self.state {
            VerificationState::AwaitingCountry => {
                return Err(VerificationError::NotReady);
            },
            VerificationState::AwaitingDecision => {},
        }
        let code = match &self.user.country {
            Some(c) => c,
            None => {
                return Err(VerificationError::NotReady);
            },
        };
        let status_message = match self.status_message {
            Some(m) => m,
            None => {
                return Err(VerificationError::NotReady);
            },
        };
        let verification_message = match self.verification_message {
            Some(m) => m,
            None => {
                return Err(VerificationError::NotReady);
            },
        };
        let country_name = match country_from_code(code.as_str()) {
            Some(n) => n,
            None => {
                return Err(VerificationError::UnknownCountry(code.clone()));
            },
        };
        let role_name = match role_name_for(country_name.as_str(), config) {
            Ok(role) => role,
            Err(_) => {
                return Err(VerificationError::NoEmojiForCountry(country_name));
            },
        };
        let country_copy = match &self.user.country {
            Some(c) => Some(c.clone()),
            None => None,
        };
        Ok(
            ApprovalPlan {
                role_name,
                member_role: "Member".to_owned(),
                nickname: self.user.username.clone(),
                requester_name: self.requester_name.clone(),
                status_message,
                verification_message,
                row: UserRow {
                    discord_id: self.requester_id,
                    game: self.user.game,
                    player_id: self.user.user_id,
                    username: self.user.username.clone(),
                    country: country_copy,
                },
            },
        )
    }

    /// Denial: decides the side effects of denying this record — the status
    /// message to mark denied and the prompt to delete.  No role or
    /// persistence side effects.  The caller removes the record from the
    /// registry once both succeeded.
    pub fn deny(&self) -> (r: Result<DenyPlan, VerificationError>)
        ensures
            match r {
                Ok(plan) => {
                    &&& decision_ready(*self)
                    &&& plan.requester_name == self.requester_name
                    &&& plan.status_message == self.status_message->0
                    &&& plan.verification_message == self.verification_message->0
                },
                Err(e) => e is NotReady && !decision_ready(*self),
            },
    {
        match self.state {
            VerificationState::AwaitingCountry => {
                return Err(VerificationError::NotReady);
            },
            VerificationState::AwaitingDecision => {},
        }
        if self.user.country.is_none() {
            return Err(VerificationError::NotReady);
        }
        let status_message = match self.status_message {
            Some(m) => m,
            None => {
                return Err(VerificationError::NotReady);
            },
        };
        let verification_message = match self.verification_message {
            Some(m) => m,
            None => {
                return Err(VerificationError::NotReady);
            },
        };
        Ok(
            DenyPlan {
                requester_name: self.requester_name.clone(),
                status_message,
                verification_message,
            },
        )
    }
}

} // verus!
