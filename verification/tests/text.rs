use sevenkey_global_bot::country_code_from_role_name;
use sevenkey_global_bot::country_from_code;
use sevenkey_global_bot::code_from_country;
use sevenkey_global_bot::remove_emojis;
use sevenkey_global_bot::text::parse_u64;
use sevenkey_global_bot::text::remove_whitespace;
use sevenkey_global_bot::text::shortcode_for;
use sevenkey_global_bot::text::u64_to_dec;
use sevenkey_global_bot::user::Game;
use sevenkey_global_bot::user::ParseGameError;

#[test]
fn shortcode_lowercases_and_underscores() {
    assert_eq!(shortcode_for("United Arab Emirates"), "united_arab_emirates");
    assert_eq!(shortcode_for("France"), "france");
    assert_eq!(shortcode_for("already_lower"), "already_lower");
    assert_eq!(shortcode_for(""), "");
}

#[test]
fn remove_emojis_strips_flags() {
    assert_eq!(remove_emojis("France 🇫🇷"), "France ");
    assert_eq!(remove_emojis("plain text"), "plain text");
    assert_eq!(remove_emojis("🚀"), "");
}

#[test]
fn remove_whitespace_strips_spaces() {
    assert_eq!(remove_whitespace("France "), "France");
    assert_eq!(remove_whitespace(" a\tb c "), "abc");
}

#[test]
fn role_name_resolves_back_to_country_code() {
    assert_eq!(
        country_code_from_role_name("France 🇫🇷"),
        Some("250".to_string())
    );
    assert_eq!(
        country_code_from_role_name("Portugal 🇵🇹"),
        Some("620".to_string())
    );
    assert_eq!(country_code_from_role_name("No Such Country 🚀"), None);
}

#[test]
fn country_lookups() {
    assert_eq!(country_from_code("FR"), Some("France".to_string()));
    assert_eq!(country_from_code("250"), Some("France".to_string()));
    assert_eq!(code_from_country("France"), Some("250".to_string()));
    assert_eq!(code_from_country("Portugal"), Some("620".to_string()));
    assert_eq!(country_from_code("ZZ"), None);
    assert_eq!(code_from_country("Atlantis"), None);
}

#[test]
fn decimal_rendering() {
    assert_eq!(u64_to_dec(0), "0");
    assert_eq!(u64_to_dec(7), "7");
    assert_eq!(u64_to_dec(1234567890), "1234567890");
    assert_eq!(u64_to_dec(u64::MAX), "18446744073709551615");
}

#[test]
fn decimal_parsing() {
    assert_eq!(parse_u64("0"), Some(0));
    assert_eq!(parse_u64("42"), Some(42));
    assert_eq!(parse_u64("0042"), Some(42));
    assert_eq!(parse_u64("18446744073709551615"), Some(u64::MAX));
    assert_eq!(parse_u64("18446744073709551616"), None);
    assert_eq!(parse_u64(""), None);
    assert_eq!(parse_u64("12a"), None);
    assert_eq!(parse_u64("-1"), None);
}

#[test]
fn game_names_round_trip() {
    for game in [Game::Osu, Game::Quaver, Game::BMS, Game::DMJam] {
        assert_eq!(Game::from_str(&game.name()), Ok(game));
    }
    assert_eq!(Game::from_str("osu"), Ok(Game::Osu));
    assert_eq!(Game::from_str("quaver"), Ok(Game::Quaver));
    assert_eq!(Game::from_str("bms"), Ok(Game::BMS));
    assert_eq!(Game::from_str("dmjam"), Ok(Game::DMJam));
    assert_eq!(Game::from_str("tetris"), Err(ParseGameError));
}
