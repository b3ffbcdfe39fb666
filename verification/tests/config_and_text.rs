use voiceforge::config::{title_case, Config, Hotkey, Provider, StoredConfig};
use voiceforge::text::{
    collapse_whitespace, concat_str, decimal_string, eq_ignore_ascii_case, first_line_of, is_blank,
    join_strings, prefix_before, same_text, take_chars, to_ascii_lowercase, trim,
};

fn hotkey(mods: &[&str], key: &str) -> Hotkey {
    Hotkey { modifiers: mods.iter().map(|m| m.to_string()).collect(), key: key.to_string() }
}

#[test]
fn default_hotkey_displays_as_alt_space() {
    assert_eq!(Hotkey::default().display(), "Alt + Space");
}

#[test]
fn hotkey_display_title_cases_every_part() {
    assert_eq!(hotkey(&["ctrl", "shift"], "k").display(), "Ctrl + Shift + K");
    assert_eq!(hotkey(&[], "capslock").display(), "Capslock");
    assert_eq!(hotkey(&[], "").display(), "");
}

#[test]
fn title_case_uses_unicode_upper_case() {
    assert_eq!(title_case("space"), "Space");
    assert_eq!(title_case(""), "");
    assert_eq!(title_case("éte"), "Éte");
    // 'ß' upper-cases to two characters.
    assert_eq!(title_case("ßa"), "SSa");
}

#[test]
fn default_config_values() {
    let c = Config::default();
    assert!(c.enabled);
    assert_eq!(c.microphone, None);
    assert_eq!(c.language, "en");
    assert_eq!(c.hotkey.modifiers, vec!["alt".to_string()]);
    assert_eq!(c.hotkey.key, "space");
    assert!(!c.autostart);
    assert_eq!(c.provider, Provider::Whisper);
    assert_eq!(c.whisper_model, "base");
    assert_eq!(Provider::default(), Provider::Whisper);
}

#[test]
fn stored_config_parsed_is_used_as_is() {
    let mut c = Config::default();
    c.language = "fr".to_string();
    c.provider = Provider::Deepgram;
    let l = Config::from_stored(StoredConfig::Parsed(c));
    assert!(!l.write_back);
    assert_eq!(l.config.language, "fr");
    assert_eq!(l.config.provider, Provider::Deepgram);
}

#[test]
fn missing_or_corrupt_config_is_replaced_by_defaults() {
    for stored in [StoredConfig::Missing, StoredConfig::Corrupt] {
        let l = Config::from_stored(stored);
        assert!(l.write_back);
        assert_eq!(l.config.language, "en");
        assert_eq!(l.config.whisper_model, "base");
        assert!(l.config.enabled);
    }
}

#[test]
fn config_path_joins_the_data_dir() {
    assert_eq!(Config::config_path("/home/u/.local/share/voiceforge"), "/home/u/.local/share/voiceforge/config.toml");
    assert_eq!(Config::config_path("/data/"), "/data/config.toml");
}

#[test]
fn duplicate_keeps_the_content() {
    let mut c = Config::default();
    c.microphone = Some("USB Mic".to_string());
    let d = c.duplicate();
    assert_eq!(d.microphone.as_deref(), Some("USB Mic"));
    assert_eq!(d.hotkey.display(), c.hotkey.display());
}

#[test]
fn text_helpers() {
    assert_eq!(trim("  a b \n"), "a b");
    assert!(is_blank(" \t\n"));
    assert!(!is_blank(" x "));
    assert_eq!(collapse_whitespace("  hello \t  big\nworld  "), "hello big world");
    assert_eq!(collapse_whitespace("   "), "");
    let parts = vec!["a".to_string(), "".to_string(), "c".to_string()];
    assert_eq!(join_strings(&parts, ", "), "a, , c");
    assert_eq!(join_strings(&Vec::new(), ", "), "");
    assert_eq!(decimal_string(0), "0");
    assert_eq!(decimal_string(1234567890), "1234567890");
    assert_eq!(decimal_string(u64::MAX), "18446744073709551615");
    assert_eq!(first_line_of("one\ntwo"), "one");
    assert_eq!(first_line_of("\ntwo"), "");
    assert_eq!(take_chars("héllo", 2), "hé");
    assert_eq!(take_chars("hi", 5), "hi");
    assert_eq!(prefix_before("en-US", '-'), "en");
    assert_eq!(prefix_before("fr", '-'), "fr");
    assert_eq!(concat_str("ab", "cd"), "abcd");
    assert_eq!(to_ascii_lowercase("AbÉ"), "abÉ");
    assert!(eq_ignore_ascii_case("SPACE", "space"));
    assert!(!eq_ignore_ascii_case("É", "é"));
    assert!(same_text("x", "x"));
    assert!(!same_text("x", "xy"));
}
