//! Verification workflow engine for a rhythm-game community chat server.
//!
//! Members prove ownership of a game account and receive a country role,
//! subject to administrator approval.  This crate holds the state of every
//! in-flight verification request, the state machine that drives a request
//! from creation through optional country selection to approval or denial,
//! and the pure resolution logic that turns a country into a role name.
//! Chat-platform calls, game-profile fetching and the durable user store are
//! collaborators: the engine hands back plans describing the side effects to
//! perform and consumes their results as plain values.

pub mod config;
pub mod roles;
pub mod text;
pub mod user;
pub mod verification;
pub mod workflow;

use std::str::FromStr;
use vstd::prelude::*;

verus! {

// --- country lookups ---

/// What `celes::Country::from_str` resolves a query to, if the query names a
/// country: the country's numeric code string and its long (display) name.
pub uninterp spec fn country_entry(query: Seq<char>) -> Option<(Seq<char>, Seq<char>)>;

/// Relies on `celes::Country::from_str`: resolves a long name, alias, alpha-2,
/// alpha-3 or numeric code to a country in a static table, case-insensitively;
/// the result depends on the query alone.
#[verifier::external_body]
fn lookup_country(query: &str) -> (r: Option<(String, String)>)
    ensures
        match r {
            Some(p) => country_entry(query@) matches Some(e) && p.0@ == e.0 && p.1@ == e.1,
            None => country_entry(query@) is None,
        },
{
    match celes::Country::from_str(query) {
        Ok(c) => Some((c.code.to_string(), c.long_name.to_string())),
        Err(_) => None,
    }
}

/// The display name of the country a code resolves to.
pub fn country_from_code(code: &str) -> (r: Option<String>)
    ensures
        match r {
            Some(name) => country_entry(code@) matches Some(e) && name@ == e.1,
            None => country_entry(code@) is None,
        },
{
    match lookup_country(code) {
        Some(p) => Some(p.1),
        None => None,
    }
}

/// The numeric code string of the country a name resolves to.
pub fn code_from_country(country: &str) -> (r: Option<String>)
    ensures
        match r {
            Some(code) => country_entry(country@) matches Some(e) && code@ == e.0,
            None => country_entry(country@) is None,
        },
{
    match lookup_country(country) {
        Some(p) => Some(p.0),
        None => None,
    }
}

// --- emoji stripping ---

/// The character ranges stripped from role names before they are resolved
/// back to a country: emoticons, symbols and pictographs, transport and map
/// symbols, regional indicators, dingbats and enclosed characters.
pub open spec fn is_emoji_char(c: char) -> bool {
    ||| ('\u{1F600}' <= c && c <= '\u{1F64F}')
    ||| ('\u{1F300}' <= c && c <= '\u{1F5FF}')
    ||| ('\u{1F680}' <= c && c <= '\u{1F6FF}')
    ||| ('\u{1F1E0}' <= c && c <= '\u{1F1FF}')
    ||| ('\u{2702}' <= c && c <= '\u{27B0}')
    ||| ('\u{24C2}' <= c && c <= '\u{1F251}')
}

fn is_emoji_char_exec(c: char) -> (r: bool)
    ensures
        r == is_emoji_char(c),
{
    ('\u{1F600}' <= c && c <= '\u{1F64F}') || ('\u{1F300}' <= c && c <= '\u{1F5FF}') || (
    '\u{1F680}' <= c && c <= '\u{1F6FF}') || ('\u{1F1E0}' <= c && c <= '\u{1F1FF}') || ('\u{2702}'
        <= c && c <= '\u{27B0}') || ('\u{24C2}' <= c && c <= '\u{1F251}')
}

/// Removes emoji characters, keeping the others in order.
pub fn remove_emojis(string: &str) -> (r: String)
    ensures
        r@ == string@.filter(|c: char| !is_emoji_char(c)),
{
    let n = string.unicode_len();
    let mut out = String::new();
    let mut i: usize = 0;
    while i < n
        invariant
            i <= n,
            n == string@.len(),
            out@ == string@.take(i as int).filter(|c: char| !is_emoji_char(c)),
        decreases n - i,
    {
        let c = string.get_char(i);
        proof {
            reveal(Seq::filter);
            assert(string@.take(i + 1).drop_last() =~= string@.take(i as int));
            assert(string@.take(i + 1).last() == string@[i as int]);
        }
        if !is_emoji_char_exec(c) {
            text::push_char(&mut out, c);
        }
        i += 1;
    }
    proof {
        assert(string@.take(n as int) =~= string@);
    }
    out
}

/// The residue of a role name once emoji and whitespace are stripped: the
/// country query that the role stands for.
pub open spec fn role_name_residue(name: Seq<char>) -> Seq<char> {
    name.filter(|c: char| !is_emoji_char(c)).filter(|c: char| !text::is_white_space(c))
}

/// The country code a role name stands for: the role name with emoji and
/// whitespace stripped, resolved back to a country.
pub fn country_code_from_role_name(name: &str) -> (r: Option<String>)
    ensures
        match r {
            Some(code) => country_entry(role_name_residue(name@)) matches Some(e) && code@ == e.0,
            None => country_entry(role_name_residue(name@)) is None,
        },
{
    let stripped = remove_emojis(name);
    let compact = text::remove_whitespace(stripped.as_str());
    code_from_country(compact.as_str())
}

} // verus!
