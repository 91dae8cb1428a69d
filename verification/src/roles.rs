//! The role/emoji resolver: turns a country display name into the name of
//! the chat-server role for that country, by deriving an emoji shortcode
//! from the name, applying the configured overrides, and looking the
//! shortcode up in the static emoji table.

use crate::config::Config;
use crate::text::shortcode_for;
use crate::text::shortcode_of;
use crate::workflow::VerificationError;
use vstd::prelude::*;

verus! {

/// What `emojis::get_by_shortcode` resolves a GitHub shortcode to, if any
/// emoji carries that shortcode: the emoji's glyph.
pub uninterp spec fn glyph_for_shortcode(shortcode: Seq<char>) -> Option<Seq<char>>;

/// Relies on `emojis::get_by_shortcode`: looks the shortcode up in the
/// crate's static emoji table — the result depends on the shortcode alone —
/// and hands back the emoji's glyph.
#[verifier::external_body]
fn emoji_for_shortcode(shortcode: &str) -> (r: Option<String>)
    ensures
        match r {
            Some(g) => glyph_for_shortcode(shortcode@) matches Some(v) && g@ == v,
            None => glyph_for_shortcode(shortcode@) is None,
        },
{
    emojis::get_by_shortcode(shortcode).map(|e| e.as_str().to_string())
}

/// The shortcode a country name resolves through: the shortcode derived from
/// the name, unless the overrides table substitutes another one.
pub open spec fn resolved_shortcode(name: Seq<char>, overrides: Map<Seq<char>, String>) -> Seq<
    char,
> {
    let sc = shortcode_of(name);
    if overrides.contains_key(sc) {
        overrides[sc]@
    } else {
        sc
    }
}

/// Whether a country name resolves to an emoji glyph under the given
/// overrides.
pub open spec fn role_name_ok(name: Seq<char>, overrides: Map<Seq<char>, String>) -> bool {
    glyph_for_shortcode(resolved_shortcode(name, overrides)) is Some
}

/// The role name for a country that resolves: the display name, a space and
/// the emoji glyph.
pub open spec fn role_name_spec(name: Seq<char>, overrides: Map<Seq<char>, String>) -> Seq<char>
    recommends
        role_name_ok(name, overrides),
{
    name + seq![' '] + glyph_for_shortcode(resolved_shortcode(name, overrides))->0
}

/// Resolves the chat-server role name for a country display name, or fails
/// naming the country if no emoji is found for its (possibly overridden)
/// shortcode.
pub fn role_name_for(country: &str, config: &Config) -> (r: Result<String, VerificationError>)
    ensures
        match r {
            Ok(role) => role_name_ok(country@, config.emoji_exceptions@) && role@
                == role_name_spec(country@, config.emoji_exceptions@),
            Err(e) => !role_name_ok(country@, config.emoji_exceptions@) && (
            e matches VerificationError::NoEmojiForCountry(c) && c@ == country@),
        },
{
    let sc = shortcode_for(country);
    let chosen: String = match config.emoji_exceptions.get(sc.as_str()) {
        Some(o) => o.clone(),
        None => sc,
    };
    match emoji_for_shortcode(chosen.as_str()) {
        Some(glyph) => {
            let mut role = country.to_owned();
            crate::text::push_char(&mut role, ' ');
            let role = role.concat(glyph.as_str());
            Ok(role)
        },
        None => Err(VerificationError::NoEmojiForCountry(country.to_owned())),
    }
}

} // verus!
