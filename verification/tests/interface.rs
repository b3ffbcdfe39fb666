use voiceforge::app::Status;
use voiceforge::config::{Config, Hotkey, Provider};
use voiceforge::secrets::{
    delete_outcome, key_present, read_outcome, save_outcome, vault_target, SecretsError, VaultError, ACCOUNT,
    SERVICE,
};
use voiceforge::tray::{needs_check_update, shows_listening, toggle_enabled, TrayAction, TrayIconState, TrayMenuIds, TOOLTIP};
use voiceforge::ui::{
    api_key_label, captured_hotkey, entering_settings, hotkey_matches, hotkey_preset_label, hotkey_presets,
    key_saved_note, key_to_save, provider_label, settings_saved_note, status_color, Tab, WindowState,
};

fn hotkey(mods: &[&str], key: &str) -> Hotkey {
    Hotkey { modifiers: mods.iter().map(|m| m.to_string()).collect(), key: key.to_string() }
}

#[test]
fn presets_are_listed_in_order() {
    let ps = hotkey_presets();
    let labels: Vec<&str> = ps.iter().map(|(l, _)| l.as_str()).collect();
    assert_eq!(labels, vec!["Alt + Space", "Ctrl + Space", "Caps Lock", "` (backtick)"]);
    assert_eq!(ps[0].1.modifiers, vec!["alt".to_string()]);
    assert_eq!(ps[0].1.key, "space");
    assert_eq!(ps[1].1.modifiers, vec!["ctrl".to_string()]);
    assert!(ps[2].1.modifiers.is_empty());
    assert_eq!(ps[2].1.key, "capslock");
    assert_eq!(ps[3].1.key, "grave");
}

#[test]
fn hotkeys_match_ignoring_case_and_order() {
    assert!(hotkey_matches(&hotkey(&["ALT"], "Space"), &hotkey(&["alt"], "space")));
    assert!(hotkey_matches(&hotkey(&["shift", "ctrl"], "k"), &hotkey(&["Ctrl", "SHIFT"], "K")));
    assert!(!hotkey_matches(&hotkey(&["alt"], "space"), &hotkey(&["ctrl"], "space")));
    assert!(!hotkey_matches(&hotkey(&["alt"], "space"), &hotkey(&["alt", "shift"], "space")));
    assert!(!hotkey_matches(&hotkey(&["alt"], "space"), &hotkey(&["alt"], "enter")));
    assert!(hotkey_matches(&hotkey(&[], "grave"), &hotkey(&[], "GRAVE")));
}

#[test]
fn preset_labels() {
    assert_eq!(hotkey_preset_label(&Hotkey::default()), "Alt + Space");
    assert_eq!(hotkey_preset_label(&hotkey(&["CTRL"], "space")), "Ctrl + Space");
    assert_eq!(hotkey_preset_label(&hotkey(&[], "CapsLock")), "Caps Lock");
    assert_eq!(hotkey_preset_label(&hotkey(&[], "grave")), "` (backtick)");
    assert_eq!(hotkey_preset_label(&hotkey(&["ctrl", "shift"], "k")), "Custom (Ctrl + Shift + K)");
}

#[test]
fn provider_and_key_labels() {
    assert_eq!(provider_label(Provider::Whisper), "Local Whisper (offline)");
    assert_eq!(provider_label(Provider::Openai), "OpenAI");
    assert_eq!(provider_label(Provider::Deepgram), "Deepgram");
    assert_eq!(provider_label(Provider::Mock), "Mock (offline test)");
    assert_eq!(api_key_label(Provider::Openai), "OpenAI API key");
    assert_eq!(api_key_label(Provider::Deepgram), "Deepgram API key");
    assert_eq!(api_key_label(Provider::Whisper), "API key (not needed — Whisper runs offline)");
    assert_eq!(api_key_label(Provider::Mock), "API key (not needed for Mock)");
}

#[test]
fn status_dot_colours() {
    assert_eq!(status_color(&Status::Idle), (0x2f, 0x6f, 0xed));
    assert_eq!(status_color(&Status::Listening), (0xe0, 0x3b, 0x3b));
    assert_eq!(status_color(&Status::Injecting), (0xe0, 0x8b, 0x00));
    assert_eq!(status_color(&Status::Downloading { message: "m".into(), percent: None }), (0x00, 0x9a, 0x9a));
    assert_eq!(status_color(&Status::Error("e".into())), (0xc0, 0x00, 0x00));
}

#[test]
fn api_key_entry_and_notes() {
    assert_eq!(key_to_save("  sk-123 \n").as_deref(), Some("sk-123"));
    assert_eq!(key_to_save("   "), None);
    assert_eq!(key_to_save(""), None);
    assert_eq!(key_saved_note(&Ok(())), "Saved to Windows Credential Manager.");
    assert_eq!(key_saved_note(&Err("vault locked".into())), "Failed: vault locked");
    assert_eq!(settings_saved_note(&Ok(())), "Settings saved.");
    assert_eq!(settings_saved_note(&Err("disk full".into())), "Save failed: disk full");
}

#[test]
fn captured_hotkeys() {
    let keys = vec![None, Some("k".to_string()), Some("j".to_string())];
    let h = captured_hotkey(true, false, true, &keys).unwrap();
    assert_eq!(h.modifiers, vec!["alt".to_string(), "shift".to_string()]);
    assert_eq!(h.key, "k");
    let h = captured_hotkey(true, true, true, &vec![Some("f5".to_string())]).unwrap();
    assert_eq!(h.display(), "Alt + Ctrl + Shift + F5");
    assert!(captured_hotkey(true, false, false, &vec![None, None]).is_none());
    assert!(captured_hotkey(false, false, false, &Vec::new()).is_none());
}

#[test]
fn tray_menu_events() {
    let ids = TrayMenuIds { enabled: "1".into(), settings: "2".into(), quit: "3".into() };
    assert_eq!(ids.match_event("1"), Some(TrayAction::ToggleEnabled));
    assert_eq!(ids.match_event("2"), Some(TrayAction::OpenSettings));
    assert_eq!(ids.match_event("3"), Some(TrayAction::Quit));
    assert_eq!(ids.match_event("4"), None);
    assert_eq!(TOOLTIP, "VoiceForge — hold the hotkey to dictate");
}

#[test]
fn tray_icon_follows_the_status() {
    let mut t = TrayIconState::new();
    assert!(!t.current_listening);
    assert_eq!(t.set_status(&Status::Idle), None);
    assert_eq!(t.set_status(&Status::Listening), Some(true));
    assert_eq!(t.set_status(&Status::Injecting), None);
    assert_eq!(t.set_status(&Status::Error("x".into())), Some(false));
    assert_eq!(t.set_status(&Status::Downloading { message: "d".into(), percent: Some(50) }), None);
    assert!(shows_listening(&Status::Listening));
    assert!(shows_listening(&Status::Injecting));
    assert!(!shows_listening(&Status::Idle));
    assert!(needs_check_update(true, false));
    assert!(!needs_check_update(true, true));
}

#[test]
fn tray_toggle_flips_only_enabled() {
    let mut c = Config::default();
    c.language = "es".into();
    let t = toggle_enabled(&c);
    assert!(!t.enabled);
    assert_eq!(t.language, "es");
    assert!(toggle_enabled(&t).enabled);
}

fn vault_err(no_entry: bool) -> VaultError {
    VaultError { no_entry, detail: "platform says no".into() }
}

#[test]
fn vault_outcomes() {
    assert_eq!(SERVICE, "VoiceForge");
    assert_eq!(ACCOUNT, "stt-api-key");
    assert_eq!(vault_target(), ("VoiceForge", "stt-api-key"));
    assert!(matches!(read_outcome(Ok("k".into())), Ok(Some(ref k)) if k == "k"));
    assert!(matches!(read_outcome(Err(vault_err(true))), Ok(None)));
    assert!(matches!(read_outcome(Err(vault_err(false))), Err(SecretsError::Read(ref d)) if d == "platform says no"));
    assert!(save_outcome(Ok(())).is_ok());
    assert!(matches!(save_outcome(Err(vault_err(false))), Err(SecretsError::Save(_))));
    assert!(delete_outcome(Ok(())).is_ok());
    assert!(delete_outcome(Err(vault_err(true))).is_ok());
    assert!(matches!(delete_outcome(Err(vault_err(false))), Err(SecretsError::Delete(_))));
    assert!(key_present(&Ok(Some("k".into()))));
    assert!(!key_present(&Ok(None)));
    assert!(!key_present(&Err(SecretsError::Read("x".into()))));
}

#[test]
fn secrets_error_messages() {
    assert_eq!(SecretsError::OpenEntry("x".into()).message(), "opening credential vault entry");
    assert_eq!(SecretsError::Save("x".into()).message(), "saving API key to credential vault");
    assert_eq!(SecretsError::Read("x".into()).message(), "reading API key from credential vault");
    assert_eq!(SecretsError::Delete("x".into()).message(), "deleting API key from credential vault");
}

#[test]
fn window_hides_instead_of_closing() {
    let mut w = WindowState::new();
    let c = w.on_frame(false, false);
    assert!(c.first_show && !c.cancel_close && !c.hide);
    let c = w.on_frame(false, false);
    assert!(!c.first_show && !c.cancel_close && !c.hide);
    let c = w.on_frame(true, false);
    assert!(!c.first_show && c.cancel_close && !c.hide);
    assert!(w.pending_hide);
    // The hide comes on the next frame.
    let c = w.on_frame(false, false);
    assert!(!c.cancel_close && c.hide);
    assert!(!w.pending_hide);
    // After Quit from the tray the close goes through.
    let c = w.on_frame(true, true);
    assert!(!c.cancel_close && !c.hide);
}

#[test]
fn microphones_are_rescanned_when_settings_open() {
    assert!(entering_settings(Tab::Dashboard, Tab::Settings));
    assert!(entering_settings(Tab::About, Tab::Settings));
    assert!(!entering_settings(Tab::Settings, Tab::Settings));
    assert!(!entering_settings(Tab::Settings, Tab::About));
}
