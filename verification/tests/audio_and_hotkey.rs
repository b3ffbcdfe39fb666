use global_hotkey::hotkey::{Code, HotKey, Modifiers};
use voiceforge::audio::{downmix_i16, downmix_u16, AudioCapture, DevicePick, SampleKind};
use voiceforge::config::Hotkey;
use voiceforge::hotkey::windows::{
    modifier_vks_for, modifiers_held, on_key, update_hotkey as hook_update_hotkey, vk_for_key_name,
    vk_for_modifier, HookState, KeyStroke,
};
use voiceforge::hotkey::{
    build_hotkey, code_name_for_key, is_valid, listener_edge, modifier_for_name, modifier_mask, update_hotkey,
    HotkeyError, HotkeyEvent, ModifierKey,
};

fn hotkey(mods: &[&str], key: &str) -> Hotkey {
    Hotkey { modifiers: mods.iter().map(|m| m.to_string()).collect(), key: key.to_string() }
}

fn names(v: &[&str]) -> Vec<String> {
    v.iter().map(|s| s.to_string()).collect()
}

#[test]
fn downmix_i16_averages_frames() {
    assert_eq!(downmix_i16(&[1, 3, -2, -4, 5], 2), vec![2, -3, 2]);
    assert_eq!(downmix_i16(&[32767, 32767, -32768, -32768], 2), vec![32767, -32768]);
    assert_eq!(downmix_i16(&[-3, 0, 0], 3), vec![-1]);
}

#[test]
fn downmix_i16_mono_is_unchanged() {
    assert_eq!(downmix_i16(&[7, -8, 9], 1), vec![7, -8, 9]);
    assert_eq!(downmix_i16(&[7, -8], 0), vec![7, -8]);
    assert_eq!(downmix_i16(&[], 2), Vec::<i16>::new());
}

#[test]
fn downmix_u16_recentres_then_averages() {
    assert_eq!(downmix_u16(&[32768, 0, 65535], 1), vec![0, -32768, 32767]);
    assert_eq!(downmix_u16(&[0, 65535], 2), vec![0]);
    assert_eq!(downmix_u16(&[0, 0, 40000, 40000], 2), vec![-32768, 7232]);
}

#[test]
fn pick_device_prefers_the_named_device() {
    let list = names(&["Built-in", "USB Mic", "USB Mic"]);
    assert_eq!(AudioCapture::pick_device(&list, Some("USB Mic"), true), Ok(DevicePick::Listed(1)));
    assert_eq!(AudioCapture::pick_device(&list, Some("USB Mic"), false), Ok(DevicePick::Listed(1)));
}

#[test]
fn pick_device_falls_back_to_default() {
    let list = names(&["Built-in"]);
    assert_eq!(AudioCapture::pick_device(&list, Some("usb mic"), true), Ok(DevicePick::Default));
    assert_eq!(AudioCapture::pick_device(&list, None, true), Ok(DevicePick::Default));
    assert_eq!(
        AudioCapture::pick_device(&list, None, false),
        Err("no input (microphone) device available".to_string())
    );
}

#[test]
fn sample_formats() {
    assert!(AudioCapture::check_format(&SampleKind::F32).is_ok());
    assert!(AudioCapture::check_format(&SampleKind::I16).is_ok());
    assert!(AudioCapture::check_format(&SampleKind::U16).is_ok());
    assert_eq!(
        AudioCapture::check_format(&SampleKind::Other("I8".into())),
        Err("unsupported sample format: I8".to_string())
    );
}

#[test]
fn hotkey_validity() {
    assert!(is_valid(&hotkey(&["alt"], "space")));
    assert!(is_valid(&hotkey(&[], "k")));
    assert!(!is_valid(&hotkey(&["alt"], "  ")));
    assert!(!is_valid(&hotkey(&[], "")));
    update_hotkey(&hotkey(&["ctrl"], "k"));
}

#[test]
fn modifier_names() {
    assert_eq!(modifier_for_name("ALT"), Some(ModifierKey::Alt));
    assert_eq!(modifier_for_name("Control"), Some(ModifierKey::Control));
    assert_eq!(modifier_for_name("ctrl"), Some(ModifierKey::Control));
    assert_eq!(modifier_for_name("shift"), Some(ModifierKey::Shift));
    assert_eq!(modifier_for_name("Command"), Some(ModifierKey::Meta));
    assert_eq!(modifier_for_name("super"), Some(ModifierKey::Meta));
    assert_eq!(modifier_for_name("hyper"), None);
}

#[test]
fn key_code_names() {
    assert_eq!(code_name_for_key("space").as_deref(), Some("Space"));
    assert_eq!(code_name_for_key("CapsLock").as_deref(), Some("CapsLock"));
    assert_eq!(code_name_for_key("grave").as_deref(), Some("Backquote"));
    assert_eq!(code_name_for_key("backtick").as_deref(), Some("Backquote"));
    assert_eq!(code_name_for_key("k").as_deref(), Some("KeyK"));
    assert_eq!(code_name_for_key("Q").as_deref(), Some("KeyQ"));
    assert_eq!(code_name_for_key("7").as_deref(), Some("Digit7"));
    assert_eq!(code_name_for_key("f1").as_deref(), Some("F1"));
    assert_eq!(code_name_for_key("F12").as_deref(), Some("F12"));
    assert_eq!(code_name_for_key("f13"), None);
    assert_eq!(code_name_for_key("f0"), None);
    assert_eq!(code_name_for_key("escape"), None);
    assert_eq!(code_name_for_key(""), None);
}

#[test]
fn modifier_masks() {
    assert_eq!(modifier_mask(&names(&[])).ok(), Some(0));
    assert_eq!(modifier_mask(&names(&["alt", "ctrl"])).ok(), Some(0x09));
    assert_eq!(modifier_mask(&names(&["shift", "win"])).ok(), Some(0x240));
    assert_eq!(modifier_mask(&names(&["alt", "alt"])).ok(), Some(0x01));
    match modifier_mask(&names(&["alt", "hyper", "bogus"])) {
        Err(e) => assert_eq!(e.message(), "unsupported hotkey modifier: hyper"),
        Ok(b) => panic!("unexpected {b}"),
    }
}

#[test]
fn build_hotkey_matches_the_crate_registration() {
    let h = build_hotkey(&hotkey(&["alt"], "space")).unwrap();
    assert_eq!(h.id(), HotKey::new(Some(Modifiers::ALT), Code::Space).id());
    let h = build_hotkey(&hotkey(&["Ctrl", "shift"], "K")).unwrap();
    assert_eq!(h.id(), HotKey::new(Some(Modifiers::CONTROL | Modifiers::SHIFT), Code::KeyK).id());
    let h = build_hotkey(&hotkey(&[], "f5")).unwrap();
    assert_eq!(h.id(), HotKey::new(None, Code::F5).id());
    assert_ne!(h.id(), HotKey::new(None, Code::F6).id());
}

#[test]
fn build_hotkey_errors() {
    match build_hotkey(&hotkey(&["alt"], "escape")) {
        Err(HotkeyError::UnsupportedKey(k)) => assert_eq!(k, "escape"),
        other => panic!("unexpected {other:?}"),
    }
    // An unknown key is reported before an unknown modifier.
    match build_hotkey(&hotkey(&["hyper"], "escape")) {
        Err(e) => assert_eq!(e.message(), "unsupported hotkey main key: escape"),
        other => panic!("unexpected {other:?}"),
    }
    match build_hotkey(&hotkey(&["hyper"], "space")) {
        Err(e) => assert_eq!(e.message(), "unsupported hotkey modifier: hyper"),
        other => panic!("unexpected {other:?}"),
    }
}

#[test]
fn windows_virtual_key_codes() {
    assert_eq!(vk_for_modifier("ALT"), Some(0x12));
    assert_eq!(vk_for_modifier("control"), Some(0x11));
    assert_eq!(vk_for_modifier("Shift"), Some(0x10));
    assert_eq!(vk_for_modifier("win"), Some(0x5B));
    assert_eq!(vk_for_modifier("cmd"), None);
    assert_eq!(vk_for_key_name("space"), Some(0x20));
    assert_eq!(vk_for_key_name("Enter"), Some(0x0D));
    assert_eq!(vk_for_key_name("tab"), Some(0x09));
    assert_eq!(vk_for_key_name("backslash"), Some(0xDC));
    assert_eq!(vk_for_key_name("a"), Some(0x41));
    assert_eq!(vk_for_key_name("Z"), Some(0x5A));
    assert_eq!(vk_for_key_name("0"), Some(0x30));
    assert_eq!(vk_for_key_name("f1"), Some(0x70));
    assert_eq!(vk_for_key_name("F12"), Some(0x7B));
    assert_eq!(vk_for_key_name("f13"), None);
    assert_eq!(vk_for_key_name("f0"), None);
    assert_eq!(vk_for_key_name("capslock"), Some(0x14));
    assert_eq!(vk_for_key_name("Grave"), Some(0xC0));
    assert_eq!(vk_for_key_name("backtick"), Some(0xC0));
    assert_eq!(vk_for_key_name("escape"), None);
    assert_eq!(modifier_vks_for(&hotkey(&["ctrl", "bogus", "shift"], "k")), vec![0x11, 0x10]);
}

fn stroke(vk: u32, down: bool, mods: bool) -> KeyStroke {
    KeyStroke { vk, is_down: down, is_up: !down, modifiers_held: mods }
}

#[test]
fn hook_reports_alternating_edges() {
    let mut st = HookState::for_hotkey(&hotkey(&["alt"], "space")).unwrap();
    assert_eq!(st.main_vk, 0x20);
    assert_eq!(st.modifier_vks, vec![0x12]);
    assert!(!st.active);

    // Without the modifier nothing happens and the key passes through.
    let d = on_key(&mut st, stroke(0x20, true, false));
    assert_eq!(d.event, None);
    assert!(!d.swallow);

    let d = on_key(&mut st, stroke(0x20, true, true));
    assert_eq!(d.event, Some(HotkeyEvent::Pressed));
    assert!(d.swallow);
    // Auto-repeat is swallowed without a second edge.
    let d = on_key(&mut st, stroke(0x20, true, true));
    assert_eq!(d.event, None);
    assert!(d.swallow);
    // Other keys pass through.
    let d = on_key(&mut st, stroke(0x41, true, true));
    assert_eq!(d.event, None);
    assert!(!d.swallow);
    let d = on_key(&mut st, stroke(0x20, false, false));
    assert_eq!(d.event, Some(HotkeyEvent::Released));
    assert!(d.swallow);
    let d = on_key(&mut st, stroke(0x20, false, false));
    assert_eq!(d.event, None);
    assert!(!d.swallow);
    assert!(!st.active);
}

#[test]
fn hook_state_for_unknown_key_fails() {
    match HookState::for_hotkey(&hotkey(&[], "escape")) {
        Err(e) => assert_eq!(e.message(), "unsupported hotkey main key: escape"),
        Ok(_) => panic!("escape has no virtual-key mapping"),
    }
    assert_eq!(HookState::for_hotkey(&hotkey(&[], "capslock")).unwrap().main_vk, 0x14);
}

#[test]
fn hook_update_retargets_a_running_listener() {
    let mut state = Some(HookState::for_hotkey(&hotkey(&["alt"], "space")).unwrap());
    state.as_mut().unwrap().active = true;
    hook_update_hotkey(&mut state, &hotkey(&["ctrl", "shift"], "k"));
    let s = state.as_ref().unwrap();
    assert_eq!(s.main_vk, 0x4B);
    assert_eq!(s.modifier_vks, vec![0x11, 0x10]);
    assert!(!s.active);
    // An unmapped key leaves the listener as it was.
    hook_update_hotkey(&mut state, &hotkey(&[], "escape"));
    assert_eq!(state.as_ref().unwrap().main_vk, 0x4B);
    // No listener: nothing to update.
    let mut none: Option<HookState> = None;
    hook_update_hotkey(&mut none, &hotkey(&[], "k"));
    assert!(none.is_none());
}

#[test]
fn modifiers_held_needs_all() {
    assert!(modifiers_held(&[]));
    assert!(modifiers_held(&[true, true]));
    assert!(!modifiers_held(&[true, false]));
}

#[test]
fn listener_edges_follow_our_hotkey_only() {
    assert_eq!(listener_edge(7, 7, true), Some(HotkeyEvent::Pressed));
    assert_eq!(listener_edge(7, 7, false), Some(HotkeyEvent::Released));
    assert_eq!(listener_edge(8, 7, true), None);
}
