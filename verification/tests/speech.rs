use voiceforge::config::{Config, Provider};
use voiceforge::stt::deepgram::{
    authorization, final_transcript, handle_message, listen_url, DeepgramResponse, FrameAction, StreamState,
    CLOSE_STREAM,
};
use voiceforge::stt::model::{
    download_total, downloading_message, incomplete_message, model_path, models, models_dir,
    plausibly_complete, progress_message, ready_message, resolve, Progress,
};
use voiceforge::stt::openai::{api_error_message, encode_wav, request_language, ENDPOINT, MODEL};
use voiceforge::stt::whisper::{inference_threads, language_hint, normalize_lang, padding_needed, TARGET_RATE};
use voiceforge::stt::{frame_to_le_bytes, plan, ProviderPlan, StreamParams, TranscriptEvent};

fn with_provider(p: Provider) -> Config {
    let mut c = Config::default();
    c.provider = p;
    c
}

#[test]
fn provider_plans() {
    match plan(&with_provider(Provider::Whisper), None) {
        Ok(ProviderPlan::Whisper { model }) => assert_eq!(model, "base"),
        other => panic!("unexpected {other:?}"),
    }
    assert!(matches!(plan(&with_provider(Provider::Mock), None), Ok(ProviderPlan::Mock)));
    match plan(&with_provider(Provider::Openai), Some("sk-1".into())) {
        Ok(ProviderPlan::Openai { api_key }) => assert_eq!(api_key, "sk-1"),
        other => panic!("unexpected {other:?}"),
    }
    match plan(&with_provider(Provider::Deepgram), Some("dg".into())) {
        Ok(ProviderPlan::Deepgram { api_key }) => assert_eq!(api_key, "dg"),
        other => panic!("unexpected {other:?}"),
    }
}

#[test]
fn missing_keys_are_reported() {
    match plan(&with_provider(Provider::Openai), None) {
        Err(e) => assert_eq!(e, "no OpenAI API key configured (set one in Settings)"),
        other => panic!("unexpected {other:?}"),
    }
    match plan(&with_provider(Provider::Deepgram), None) {
        Err(e) => assert_eq!(e, "no Deepgram API key configured (set one in Settings)"),
        other => panic!("unexpected {other:?}"),
    }
}

#[test]
fn pcm_frames_are_little_endian() {
    assert_eq!(frame_to_le_bytes(&[1, -2, 0x1234]), vec![0x01, 0x00, 0xFE, 0xFF, 0x34, 0x12]);
    assert_eq!(frame_to_le_bytes(&[]), Vec::<u8>::new());
    assert_eq!(frame_to_le_bytes(&[i16::MIN, i16::MAX]), vec![0x00, 0x80, 0xFF, 0x7F]);
}

#[test]
fn wav_encoding_exact_bytes() {
    let w = encode_wav(&[1, -1], 16_000);
    let mut expected: Vec<u8> = Vec::new();
    expected.extend_from_slice(b"RIFF");
    expected.extend_from_slice(&40u32.to_le_bytes());
    expected.extend_from_slice(b"WAVE");
    expected.extend_from_slice(b"fmt ");
    expected.extend_from_slice(&16u32.to_le_bytes());
    expected.extend_from_slice(&1u16.to_le_bytes());
    expected.extend_from_slice(&1u16.to_le_bytes());
    expected.extend_from_slice(&16_000u32.to_le_bytes());
    expected.extend_from_slice(&32_000u32.to_le_bytes());
    expected.extend_from_slice(&2u16.to_le_bytes());
    expected.extend_from_slice(&16u16.to_le_bytes());
    expected.extend_from_slice(b"data");
    expected.extend_from_slice(&4u32.to_le_bytes());
    expected.extend_from_slice(&[0x01, 0x00, 0xFF, 0xFF]);
    assert_eq!(w, expected);
    assert_eq!(encode_wav(&[], 48_000).len(), 44);
}

#[test]
fn openai_request_details() {
    assert_eq!(ENDPOINT, "https://api.openai.com/v1/audio/transcriptions");
    assert_eq!(MODEL, "gpt-4o-transcribe");
    assert_eq!(request_language("en-US").as_deref(), Some("en"));
    assert_eq!(request_language("fr").as_deref(), Some("fr"));
    assert_eq!(request_language(""), None);
    assert_eq!(request_language("-US"), None);
    assert_eq!(api_error_message(401, "Incorrect API key provided"), "OpenAI error 401: Incorrect API key provided");
    assert_eq!(api_error_message(500, ""), "OpenAI error 500: ");
}

#[test]
fn deepgram_url_and_header() {
    let p = StreamParams { sample_rate: 48_000, language: "en-US".into() };
    assert_eq!(
        listen_url(&p),
        "wss://api.deepgram.com/v1/listen?encoding=linear16&sample_rate=48000&channels=1&language=en-US&model=nova-2&interim_results=true&punctuate=true&smart_format=true&endpointing=300"
    );
    assert_eq!(authorization("abc"), "Token abc");
    assert_eq!(CLOSE_STREAM, "{\"type\":\"CloseStream\"}");
}

fn response(kind: Option<&str>, is_final: bool, alts: Option<&[&str]>) -> Option<DeepgramResponse> {
    Some(DeepgramResponse {
        kind: kind.map(|k| k.to_string()),
        is_final,
        alternatives: alts.map(|a| a.iter().map(|s| s.to_string()).collect()),
    })
}

#[test]
fn deepgram_messages() {
    let mut finals: Vec<String> = Vec::new();
    let o = handle_message(response(Some("Results"), false, Some(&["hel"])), &mut finals);
    assert!(!o.done);
    assert!(matches!(o.event, Some(TranscriptEvent::Interim(ref t)) if t == "hel"));
    assert!(finals.is_empty());

    let o = handle_message(response(Some("Results"), true, Some(&["Hello there.", "alt"])), &mut finals);
    assert!(matches!(o.event, Some(TranscriptEvent::Final(ref t)) if t == "Hello there."));
    assert_eq!(finals, vec!["Hello there.".to_string()]);

    // Blank transcripts, empty alternatives, missing channels and undecodable text mean nothing.
    for msg in [
        response(Some("Results"), true, Some(&["  "])),
        response(Some("Results"), true, Some(&[])),
        response(None, true, None),
        None,
    ] {
        let o = handle_message(msg, &mut finals);
        assert!(!o.done);
        assert!(o.event.is_none());
    }
    assert_eq!(finals.len(), 1);

    let o = handle_message(response(Some("Metadata"), true, Some(&["ignored"])), &mut finals);
    assert!(o.done);
    assert!(o.event.is_none());
    assert_eq!(finals.len(), 1);
}

#[test]
fn deepgram_final_transcript_collapses_whitespace() {
    let finals = vec!["Hello  world.".to_string(), " How are\tyou? ".to_string()];
    assert_eq!(final_transcript(&finals), "Hello world. How are you?");
    assert_eq!(final_transcript(&Vec::new()), "");
}

#[test]
fn deepgram_stream_state() {
    let mut st = StreamState::new();
    assert!(st.wants_audio());
    match st.on_audio(Some(vec![1, -2])) {
        FrameAction::SendAudio(b) => assert_eq!(b, vec![0x01, 0x00, 0xFE, 0xFF]),
        other => panic!("unexpected {other:?}"),
    }
    assert!(st.wants_audio());
    assert!(matches!(st.on_audio(None), FrameAction::SendClose));
    assert!(!st.wants_audio());
    assert!(matches!(st.on_audio(None), FrameAction::Nothing));

    let mut st = StreamState::new();
    st.on_send_error();
    assert!(!st.wants_audio());
    assert!(matches!(st.on_audio(None), FrameAction::SendClose));
}

#[test]
fn whisper_language_and_threads() {
    assert_eq!(TARGET_RATE, 16_000);
    assert_eq!(normalize_lang("en-US").as_deref(), Some("en"));
    assert_eq!(normalize_lang(" FR ").as_deref(), Some("fr"));
    assert_eq!(normalize_lang("ÉS").as_deref(), Some("és"));
    assert_eq!(normalize_lang("auto"), None);
    assert_eq!(normalize_lang("AUTO-x"), None);
    assert_eq!(normalize_lang(""), None);
    assert_eq!(normalize_lang("  -US"), None);
    assert_eq!(language_hint("de".into()).as_deref(), Some("de"));
    assert_eq!(language_hint("auto".into()), None);
    assert_eq!(language_hint("".into()), None);
    assert_eq!(inference_threads(Some(16)), 8);
    assert_eq!(inference_threads(Some(9)), 8);
    assert_eq!(inference_threads(Some(4)), 3);
    assert_eq!(inference_threads(Some(2)), 1);
    assert_eq!(inference_threads(Some(1)), 1);
    assert_eq!(inference_threads(None), 4);
    assert_eq!(padding_needed(0), 16_000);
    assert_eq!(padding_needed(100), 15_900);
    assert_eq!(padding_needed(16_000), 0);
    assert_eq!(padding_needed(20_000), 0);
}

#[test]
fn model_catalog() {
    let ms = models();
    let names: Vec<&str> = ms.iter().map(|m| m.name).collect();
    assert_eq!(names, vec!["tiny", "base", "base.en", "small"]);
    assert_eq!(resolve("BASE.EN").name, "base.en");
    assert_eq!(resolve("Small").file, "ggml-small.bin");
    assert_eq!(resolve("nonexistent").name, "base");
    assert_eq!(resolve("").name, "base");
    assert_eq!(
        resolve("tiny").url,
        "https://huggingface.co/ggerganov/whisper.cpp/resolve/main/ggml-tiny.bin"
    );
    assert_eq!(resolve("small").approx_bytes, 466_000_000);
}

#[test]
fn model_paths() {
    let dir = models_dir("/home/u/.local/share/voiceforge");
    assert_eq!(dir, "/home/u/.local/share/voiceforge/models");
    assert_eq!(model_path(&resolve("tiny"), &dir), "/home/u/.local/share/voiceforge/models/ggml-tiny.bin");
}

#[test]
fn model_sizes_and_totals() {
    let base = resolve("base");
    assert!(plausibly_complete(113_600_000, &base));
    assert!(!plausibly_complete(113_599_999, &base));
    assert_eq!(download_total(None, &base), 142_000_000);
    assert_eq!(download_total(Some(10), &base), 10);
}

#[test]
fn download_progress_reports_every_five_percent() {
    let mut p = Progress::new();
    assert_eq!(p.on_chunk(3, 100), None);
    assert_eq!(p.on_chunk(2, 100), Some(5));
    assert_eq!(p.on_chunk(0, 100), None);
    assert_eq!(p.on_chunk(4, 100), None);
    assert_eq!(p.on_chunk(1, 100), Some(10));
    assert_eq!(p.on_chunk(500, 100), Some(100));
    assert_eq!(p.on_chunk(1, 100), None);
    assert_eq!(p.downloaded, 511);

    // An unknown total counts against one byte.
    let mut q = Progress::new();
    assert_eq!(q.on_chunk(0, 0), Some(0));
    assert_eq!(q.on_chunk(1, 0), Some(100));
}

#[test]
fn download_messages() {
    let base = resolve("base");
    assert_eq!(downloading_message(&base), "Downloading Whisper model 'base'…");
    assert_eq!(progress_message(&base, 45), "Downloading model 'base'… 45%");
    assert_eq!(ready_message(&base), "Model 'base' ready");
    assert_eq!(incomplete_message(1234), "downloaded model looks incomplete (1234 bytes); please try again");
}
