use voiceforge::app::{SharedState, Status};
use voiceforge::config::Config;
use voiceforge::controller::{short_error, ControllerAction, ControllerEvent, Dictation, Phase};

fn fresh() -> (Dictation, SharedState) {
    (Dictation::new(), SharedState::new(Config::default(), false))
}

fn to_finishing(d: &mut Dictation, s: &mut SharedState) {
    d.step(s, ControllerEvent::Pressed);
    d.step(s, ControllerEvent::CaptureStarted { sample_rate: 48_000 });
    d.step(s, ControllerEvent::Released);
    assert_eq!(d.phase(), Phase::Finishing);
}

#[test]
fn status_labels() {
    assert_eq!(Status::Idle.label(), "Idle");
    assert_eq!(Status::Listening.label(), "Listening…");
    assert_eq!(Status::Injecting.label(), "Typing…");
    assert_eq!(Status::Downloading { message: "Downloading model 'base'… 5%".into(), percent: Some(5) }.label(), "Downloading model 'base'… 5%");
    assert_eq!(Status::Error("boom".into()).label(), "Error: boom");
}

#[test]
fn shared_state_reads_back_what_was_set() {
    let mut s = SharedState::new(Config::default(), true);
    assert!(s.api_key_present());
    assert_eq!(s.status().label(), "Idle");
    assert_eq!(s.last_transcript(), "");
    s.set_status(Status::Listening);
    assert_eq!(s.status().label(), "Listening…");
    s.set_api_key_present(false);
    assert!(!s.api_key_present());
    s.set_last_transcript("hi there".into());
    assert_eq!(s.last_transcript(), "hi there");
    let mut c = Config::default();
    c.language = "de".into();
    s.update_config(c);
    assert_eq!(s.config().language, "de");
}

#[test]
fn full_dictation_cycle() {
    let (mut d, mut s) = fresh();
    assert_eq!(d.phase(), Phase::Idle);

    let a = d.step(&mut s, ControllerEvent::Pressed);
    assert!(matches!(a, ControllerAction::StartCapture { microphone: None }));
    assert_eq!(d.phase(), Phase::Starting);

    let a = d.step(&mut s, ControllerEvent::CaptureStarted { sample_rate: 48_000 });
    match a {
        ControllerAction::StartTranscription { params } => {
            assert_eq!(params.sample_rate, 48_000);
            assert_eq!(params.language, "en");
        }
        other => panic!("unexpected {other:?}"),
    }
    assert_eq!(s.status().label(), "Listening…");

    let a = d.step(&mut s, ControllerEvent::Released);
    assert!(matches!(a, ControllerAction::FinishCapture));

    let a = d.step(&mut s, ControllerEvent::Transcribed("  hello world \n".into()));
    match a {
        ControllerAction::Inject { text } => assert_eq!(text, "hello world"),
        other => panic!("unexpected {other:?}"),
    }
    assert_eq!(d.phase(), Phase::Injecting);
    assert_eq!(s.status().label(), "Typing…");
    assert_eq!(s.last_transcript(), "hello world");

    let a = d.step(&mut s, ControllerEvent::Injected);
    assert!(matches!(a, ControllerAction::Nothing));
    assert_eq!(d.phase(), Phase::Idle);
    assert_eq!(s.status().label(), "Idle");
}

#[test]
fn configured_microphone_is_requested() {
    let mut c = Config::default();
    c.microphone = Some("Headset".into());
    let mut s = SharedState::new(c, false);
    let mut d = Dictation::new();
    match d.step(&mut s, ControllerEvent::Pressed) {
        ControllerAction::StartCapture { microphone } => assert_eq!(microphone.as_deref(), Some("Headset")),
        other => panic!("unexpected {other:?}"),
    }
}

#[test]
fn disabled_press_is_ignored() {
    let mut c = Config::default();
    c.enabled = false;
    let mut s = SharedState::new(c, false);
    let mut d = Dictation::new();
    assert!(matches!(d.step(&mut s, ControllerEvent::Pressed), ControllerAction::Nothing));
    assert_eq!(d.phase(), Phase::Idle);
    assert_eq!(s.status().label(), "Idle");
}

#[test]
fn press_while_busy_is_ignored() {
    let (mut d, mut s) = fresh();
    d.step(&mut s, ControllerEvent::Pressed);
    d.step(&mut s, ControllerEvent::CaptureStarted { sample_rate: 16_000 });
    assert!(matches!(d.step(&mut s, ControllerEvent::Pressed), ControllerAction::Nothing));
    assert_eq!(d.phase(), Phase::Listening);
}

#[test]
fn release_without_capture_is_ignored() {
    let (mut d, mut s) = fresh();
    assert!(matches!(d.step(&mut s, ControllerEvent::Released), ControllerAction::Nothing));
    assert_eq!(d.phase(), Phase::Idle);
}

#[test]
fn capture_failure_reports_mic_error() {
    let (mut d, mut s) = fresh();
    d.step(&mut s, ControllerEvent::Pressed);
    let a = d.step(&mut s, ControllerEvent::CaptureFailed { message: "no input (microphone) device available".into() });
    assert!(matches!(a, ControllerAction::Nothing));
    assert_eq!(d.phase(), Phase::Idle);
    assert_eq!(s.status().label(), "Error: Mic error: no input (microphone) device available");
}

#[test]
fn blank_transcript_is_not_typed() {
    let (mut d, mut s) = fresh();
    to_finishing(&mut d, &mut s);
    let a = d.step(&mut s, ControllerEvent::Transcribed(" \t\n ".into()));
    assert!(matches!(a, ControllerAction::Nothing));
    assert_eq!(d.phase(), Phase::Idle);
    assert_eq!(s.status().label(), "Idle");
    assert_eq!(s.last_transcript(), "");
}

#[test]
fn transcription_failure_shows_first_line() {
    let (mut d, mut s) = fresh();
    to_finishing(&mut d, &mut s);
    d.step(&mut s, ControllerEvent::TranscriptionFailed { message: "OpenAI error 401: bad key\ndetails".into() });
    assert_eq!(d.phase(), Phase::Idle);
    assert_eq!(s.status().label(), "Error: OpenAI error 401: bad key");
}

#[test]
fn transcription_panic_is_an_internal_error() {
    let (mut d, mut s) = fresh();
    to_finishing(&mut d, &mut s);
    d.step(&mut s, ControllerEvent::TranscriptionPanicked);
    assert_eq!(s.status().label(), "Error: internal error");
}

#[test]
fn injection_failure_is_shortened() {
    let (mut d, mut s) = fresh();
    to_finishing(&mut d, &mut s);
    d.step(&mut s, ControllerEvent::Transcribed("text".into()));
    let long = "x".repeat(100);
    d.step(&mut s, ControllerEvent::InjectionFailed { message: long });
    assert_eq!(d.phase(), Phase::Idle);
    assert_eq!(s.status().label(), format!("Error: {}", "x".repeat(80)));
}

#[test]
fn short_error_forms() {
    assert_eq!(short_error(""), "error");
    assert_eq!(short_error("first\nsecond"), "first");
    assert_eq!(short_error("\nsecond"), "");
    assert_eq!(short_error(&"é".repeat(90)), "é".repeat(80));
    assert_eq!(short_error("short"), "short");
}

#[test]
fn a_second_dictation_works_after_the_first() {
    let (mut d, mut s) = fresh();
    for word in ["one", "two"] {
        to_finishing(&mut d, &mut s);
        d.step(&mut s, ControllerEvent::Transcribed(word.into()));
        d.step(&mut s, ControllerEvent::Injected);
        assert_eq!(s.last_transcript(), word);
        assert_eq!(d.phase(), Phase::Idle);
    }
}

#[test]
fn events_out_of_turn_change_nothing() {
    let (mut d, mut s) = fresh();
    for ev in [
        ControllerEvent::CaptureStarted { sample_rate: 44_100 },
        ControllerEvent::Transcribed("stray".into()),
        ControllerEvent::Injected,
        ControllerEvent::TranscriptionPanicked,
    ] {
        assert!(matches!(d.step(&mut s, ev), ControllerAction::Nothing));
        assert_eq!(d.phase(), Phase::Idle);
        assert_eq!(s.status().label(), "Idle");
    }
    assert_eq!(s.last_transcript(), "");
}

#[test]
fn language_is_the_one_configured_at_the_press() {
    let (mut d, mut s) = fresh();
    d.step(&mut s, ControllerEvent::Pressed);
    let mut c = Config::default();
    c.language = "fr".into();
    s.update_config(c);
    match d.step(&mut s, ControllerEvent::CaptureStarted { sample_rate: 16_000 }) {
        ControllerAction::StartTranscription { params } => assert_eq!(params.language, "en"),
        other => panic!("unexpected {other:?}"),
    }
}
