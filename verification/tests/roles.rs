use sevenkey_global_bot::config::Config;
use sevenkey_global_bot::roles::role_name_for;
use sevenkey_global_bot::workflow::VerificationError;

#[test]
fn role_name_uses_country_name_shortcode() {
    let config = Config::new();
    assert_eq!(
        role_name_for("Portugal", &config),
        Ok("Portugal 🇵🇹".to_string())
    );
}

#[test]
fn role_name_without_emoji_fails_naming_the_country() {
    let config = Config::new();
    assert_eq!(
        role_name_for("France", &config),
        Err(VerificationError::NoEmojiForCountry("France".to_string()))
    );
}

#[test]
fn override_turns_failure_into_success() {
    let mut config = Config::new();
    assert_eq!(
        role_name_for("France", &config),
        Err(VerificationError::NoEmojiForCountry("France".to_string()))
    );
    config.add_emoji_exception("france".to_string(), "fr".to_string());
    assert_eq!(
        role_name_for("France", &config),
        Ok("France 🇫🇷".to_string())
    );
}

#[test]
fn removing_an_override_restores_the_miss() {
    let mut config = Config::new();
    config.add_emoji_exception("france".to_string(), "fr".to_string());
    assert_eq!(
        role_name_for("France", &config),
        Ok("France 🇫🇷".to_string())
    );
    assert!(config.remove_emoji_exception("france"));
    assert!(!config.remove_emoji_exception("france"));
    assert_eq!(
        role_name_for("France", &config),
        Err(VerificationError::NoEmojiForCountry("France".to_string()))
    );
}

#[test]
fn multi_word_country_resolves_through_underscored_shortcode() {
    let mut config = Config::new();
    config.add_emoji_exception(
        "the_united_arab_emirates".to_string(),
        "united_arab_emirates".to_string(),
    );
    assert_eq!(
        role_name_for("The United Arab Emirates", &config),
        Ok("The United Arab Emirates 🇦🇪".to_string())
    );
}
