use voiceforge::inject::windows::{
    check_ctrl_v_sent, check_sent, chunk_end, ctrl_v_inputs, encode_utf16, unicode_input,
    unicode_inputs, vk_input, KeyInput, CHUNK, VK_CONTROL, VK_V,
};
use voiceforge::inject::{start_injection, type_text, Flavor, InjectAction, Injection, PASTE_PAUSE_MS};

fn ok() -> Result<Option<String>, String> {
    Ok(None)
}

fn expect_done_ok(a: InjectAction) {
    match a {
        InjectAction::Done(Ok(())) => {}
        other => panic!("unexpected {other:?}"),
    }
}

fn expect_write(a: InjectAction, text: &str) {
    match a {
        InjectAction::WriteClipboard { text: t } => assert_eq!(t, text),
        other => panic!("unexpected {other:?}"),
    }
}

fn expect_failure(a: InjectAction, context: &str, detail: &str) {
    match a {
        InjectAction::Done(Err(e)) => {
            assert_eq!(e.context, context);
            assert_eq!(e.detail, detail);
            assert_eq!(e.message(), context);
        }
        other => panic!("unexpected {other:?}"),
    }
}

fn started(flavor: Flavor, text: &str) -> Injection {
    let (inj, a) = start_injection(flavor, text);
    match a {
        InjectAction::TypeDirect { text: t } => assert_eq!(t, text),
        other => panic!("unexpected {other:?}"),
    }
    inj
}

#[test]
fn empty_text_needs_nothing() {
    let (inj, a) = type_text("");
    expect_done_ok(a);
    assert!(inj.is_finished());
}

#[test]
fn direct_typing_success_finishes() {
    let (mut inj, a) = type_text("héllo");
    match a {
        InjectAction::TypeDirect { text } => assert_eq!(text, "héllo"),
        other => panic!("unexpected {other:?}"),
    }
    assert!(!inj.is_finished());
    expect_done_ok(inj.advance(ok()));
    assert!(inj.is_finished());
}

#[test]
fn paste_fallback_restores_the_clipboard() {
    let mut inj = started(Flavor::Portable, "hi");
    assert!(matches!(inj.advance(Err("enigo failed".into())), InjectAction::OpenClipboard));
    assert!(matches!(inj.advance(ok()), InjectAction::ReadClipboard));
    expect_write(inj.advance(Ok(Some("previous".into()))), "hi");
    assert!(matches!(inj.advance(ok()), InjectAction::SendPaste));
    match inj.advance(ok()) {
        InjectAction::Wait { millis } => assert_eq!(millis, PASTE_PAUSE_MS),
        other => panic!("unexpected {other:?}"),
    }
    expect_write(inj.advance(ok()), "previous");
    expect_done_ok(inj.advance(ok()));
    assert!(inj.is_finished());
}

#[test]
fn paste_fallback_without_previous_text_skips_the_restore() {
    let mut inj = started(Flavor::Portable, "hi");
    inj.advance(Err("x".into()));
    inj.advance(ok());
    // Reading failed: nothing to restore.
    expect_write(inj.advance(Err("no text".into())), "hi");
    inj.advance(ok());
    inj.advance(ok());
    expect_done_ok(inj.advance(ok()));
}

#[test]
fn paste_fallback_failures_name_the_step() {
    let mut inj = started(Flavor::Portable, "hi");
    inj.advance(Err("x".into()));
    expect_failure(inj.advance(Err("busy".into())), "opening clipboard", "busy");
    assert!(inj.is_finished());

    let mut inj = started(Flavor::Portable, "hi");
    inj.advance(Err("x".into()));
    inj.advance(ok());
    inj.advance(ok());
    expect_failure(inj.advance(Err("denied".into())), "setting clipboard text", "denied");

    let mut inj = started(Flavor::Portable, "hi");
    inj.advance(Err("x".into()));
    inj.advance(ok());
    inj.advance(ok());
    inj.advance(ok());
    expect_failure(inj.advance(Err("blocked".into())), "sending paste shortcut", "blocked");
}

#[test]
fn windows_fallback_reads_the_clipboard_directly() {
    let (inj, _) = voiceforge::inject::windows::type_text("");
    assert!(inj.is_finished());
    let mut inj = started(Flavor::Windows, "ok");
    assert!(matches!(inj.advance(Err("SendInput".into())), InjectAction::ReadClipboard));
    expect_write(inj.advance(Ok(Some("old".into()))), "ok");
    assert!(matches!(inj.advance(ok()), InjectAction::SendPaste));
    // The earlier clipboard text goes back before the failure is reported.
    expect_write(inj.advance(Err("SendInput sent 2/4 events for Ctrl+V".into())), "old");
    assert!(!inj.is_finished());
    expect_failure(inj.advance(ok()), "sending Ctrl+V", "SendInput sent 2/4 events for Ctrl+V");
    assert!(inj.is_finished());
}

#[test]
fn failed_paste_restores_the_clipboard_even_if_restoring_fails() {
    let mut inj = started(Flavor::Portable, "hi");
    inj.advance(Err("x".into()));
    inj.advance(ok());
    expect_write(inj.advance(Ok(Some("mine".into()))), "hi");
    inj.advance(ok());
    expect_write(inj.advance(Err("no shortcut".into())), "mine");
    expect_failure(inj.advance(Err("restore failed".into())), "sending paste shortcut", "no shortcut");
}

#[test]
fn utf16_encoding() {
    assert_eq!(encode_utf16("a😀é"), vec![0x61, 0xD83D, 0xDE00, 0xE9]);
    assert_eq!(encode_utf16(""), Vec::<u16>::new());
    let s = "mixed ✓ 𝄞 text";
    assert_eq!(encode_utf16(s), s.encode_utf16().collect::<Vec<u16>>());
}

#[test]
fn keyboard_events() {
    assert_eq!(unicode_input(0x61, false), KeyInput { vk: 0, scan: 0x61, unicode: true, key_up: false });
    assert_eq!(vk_input(VK_V, true), KeyInput { vk: 0x56, scan: 0, unicode: false, key_up: true });
    let ev = unicode_inputs("a😀");
    assert_eq!(
        ev,
        vec![
            unicode_input(0x61, false),
            unicode_input(0x61, true),
            unicode_input(0xD83D, false),
            unicode_input(0xD83D, true),
            unicode_input(0xDE00, false),
            unicode_input(0xDE00, true),
        ]
    );
    assert_eq!(
        ctrl_v_inputs(),
        vec![vk_input(VK_CONTROL, false), vk_input(VK_V, false), vk_input(VK_V, true), vk_input(VK_CONTROL, true)]
    );
}

#[test]
fn chunks_and_send_checks() {
    assert_eq!(CHUNK, 2000);
    assert_eq!(chunk_end(0, 5000), 2000);
    assert_eq!(chunk_end(4000, 5000), 5000);
    assert_eq!(chunk_end(5000, 5000), 5000);
    assert_eq!(check_sent(6, 6), Ok(()));
    assert_eq!(check_sent(3, 6), Err("SendInput injected 3/6 events (input may be blocked)".to_string()));
    assert_eq!(check_ctrl_v_sent(4), Ok(()));
    assert_eq!(check_ctrl_v_sent(0), Err("SendInput sent 0/4 events for Ctrl+V".to_string()));
}

#[test]
fn every_injection_finishes_within_seven_outcomes() {
    let patterns: Vec<Vec<Result<Option<String>, String>>> = vec![
        vec![Err("e".into()); 7],
        vec![Ok(Some("clip".into())); 7],
        vec![Err("e".into()), Ok(None), Ok(Some("p".into())), Ok(None), Ok(None), Ok(None), Ok(None)],
        vec![Err("e".into()), Ok(None), Err("r".into()), Ok(None), Ok(None), Ok(None), Ok(None)],
    ];
    for flavor in [Flavor::Portable, Flavor::Windows] {
        for outcomes in &patterns {
            let (mut inj, _) = start_injection(flavor, "text");
            for o in outcomes {
                inj.advance(o.clone());
            }
            assert!(inj.is_finished(), "{flavor:?} {outcomes:?}");
        }
    }
}
