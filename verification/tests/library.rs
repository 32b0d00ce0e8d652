use audio_engine::audio::{choose_device, needs_device_list, device_not_found_message, device_report, loopback_name_matches, DeviceChoice, DeviceDirection};
use audio_engine::completion::{completion_translation, contains_str, strip_quotes_str, try_clean_groq_output};
use audio_engine::config::{parse_u32, ConfigSources, EngineConfig};
use audio_engine::engine::{expand_channels, preview_text, Engine, EngineAction, EngineState, PipelineKind, PreviewOutcome};
use audio_engine::pcm::{decode_pcm, frame_len, frame_message, pcm16_base64, pcm16_le_bytes, silence_len};
use audio_engine::pipeline::{after_deepgram_failure, initial_session, no_provider_message, session_failed_message, SttKind, SttProvider};
use audio_engine::processor::{first_audio_event, metrics_event, preload_status_event, preload_wait_secs, tts_audio_event, tts_failed_event, PreloadStatus};
use audio_engine::protocol::{Command, ConfigValue, Event};
use audio_engine::stt::{final_result, yandex_authorization, yandex_stt_url, DeepgramStt, PendingAudio, SendOutcome};
use audio_engine::text::trim_str;
use audio_engine::tracelog::{format_trace_line, should_prune};
use audio_engine::translation::{
    bearer, first_success, lang_name, translation_prompt, ChatProvider, ChatRetry, HedgeReply, HttpOutcome,
    LiteLlmTranslator, RetryStep, TranslationDirection, TranslationEngine, TranslationPlan, YandexTranslator,
};
use audio_engine::tts::PhonemeIdMap;

fn no_sources() -> ConfigSources {
    ConfigSources {
        models_dir: None,
        deepgram_api_key: None,
        groq_api_key: None,
        yandex_api_key: None,
        yandex_folder_id: None,
        translation_provider: None,
        litellm_base_url: None,
        litellm_api_key: None,
        litellm_model: None,
        stt_provider: None,
        whisper_model: None,
        local_mt_ruen: None,
        local_mt_enru: None,
        tts_en_model: None,
        tts_en_config: None,
        tts_ru_model: None,
        tts_ru_config: None,
        mic_device: None,
        speaker_device: None,
        meet_input_device: None,
        meet_output_device: None,
        sample_rate: None,
        endpointing_ms: None,
        utterance_end_ms: None,
        my_language: None,
        their_language: None,
    }
}

fn strings(v: &[&str]) -> Vec<String> {
    v.iter().map(|s| s.to_string()).collect()
}

fn error_message(e: &Event) -> String {
    match e {
        Event::Error { message } => message.clone(),
        _ => panic!("not an error event"),
    }
}

fn log_message(e: &Event) -> (String, String) {
    match e {
        Event::Log { level, message } => (level.clone(), message.clone()),
        _ => panic!("not a log event"),
    }
}

// ---- configuration ----

#[test]
fn parse_u32_accepts_what_str_parse_accepts() {
    assert_eq!(parse_u32("48000"), Some(48000));
    assert_eq!(parse_u32("+5"), Some(5));
    assert_eq!(parse_u32("0007"), Some(7));
    assert_eq!(parse_u32("4294967295"), Some(u32::MAX));
}

#[test]
fn parse_u32_rejects_the_rest() {
    assert_eq!(parse_u32(""), None);
    assert_eq!(parse_u32("+"), None);
    assert_eq!(parse_u32("-1"), None);
    assert_eq!(parse_u32(" 1"), None);
    assert_eq!(parse_u32("12a"), None);
    assert_eq!(parse_u32("4294967296"), None);
}

#[test]
fn config_defaults() {
    let c = EngineConfig::from_sources(no_sources());
    assert_eq!(c.deepgram_api_key, "");
    assert_eq!(c.translation_provider, "auto");
    assert_eq!(c.litellm_model, "ollama:ministral-3:3b-cloud");
    assert_eq!(c.stt_provider, "auto");
    assert_eq!(c.whisper_model, "tiny");
    assert_eq!(c.tts_en_model, "./models/piper-en/en_US-ryan-medium.onnx");
    assert_eq!(c.tts_ru_config, "./models/piper-ru/ru_RU-denis-medium.onnx.json");
    assert_eq!(c.mic_device, "default");
    assert_eq!(c.sample_rate, 48000);
    assert_eq!(c.endpointing_ms, 300);
    assert_eq!(c.utterance_end_ms, 500);
    assert_eq!(c.my_language, "ru");
    assert_eq!(c.their_language, "en");
}

#[test]
fn config_takes_set_values() {
    let mut s = no_sources();
    s.models_dir = Some("/m".into());
    s.sample_rate = Some("44100".into());
    s.endpointing_ms = Some("fast".into());
    s.tts_ru_model = Some("/voices/ru.onnx".into());
    s.mic_device = Some("Jabra".into());
    let c = EngineConfig::from_sources(s);
    assert_eq!(c.tts_en_config, "/m/piper-en/en_US-ryan-medium.onnx.json");
    assert_eq!(c.tts_ru_model, "/voices/ru.onnx");
    assert_eq!(c.sample_rate, 44100);
    assert_eq!(c.endpointing_ms, 300);
    assert_eq!(c.mic_device, "Jabra");
}

// ---- speech to text ----

#[test]
fn deepgram_url_with_language() {
    let stt = DeepgramStt::new("k3y".into(), "ru".into(), 300);
    assert_eq!(
        stt.listen_url(16000),
        "wss://api.deepgram.com/v1/listen?model=nova-3&language=ru&encoding=linear16&sample_rate=16000\
         &channels=1&multichannel=false&interim_results=true&endpointing=300&utterance_end_ms=1500&vad_events=true"
    );
    assert_eq!(stt.authorization(), "Token k3y");
}

#[test]
fn deepgram_language_codes() {
    assert_eq!(DeepgramStt::new("".into(), "pt".into(), 1).language(), "pt-BR");
    assert_eq!(DeepgramStt::new("".into(), "no".into(), 1).language(), "nb");
    assert_eq!(DeepgramStt::new("".into(), "en".into(), 1).language(), "en");
    let any = DeepgramStt::new("".into(), "any".into(), 250);
    assert_eq!(
        any.listen_url(8000),
        "wss://api.deepgram.com/v1/listen?model=nova-3&encoding=linear16&sample_rate=8000\
         &channels=1&multichannel=false&interim_results=true&endpointing=250&utterance_end_ms=1500&vad_events=true"
    );
}

#[test]
fn blank_finals_are_dropped() {
    assert!(final_result("  \n".into(), 5).is_none());
    let r = final_result("hi".into(), 5).unwrap();
    assert_eq!(r.text, "hi");
    assert_eq!(r.stt_latency_ms, 5);
}

#[test]
fn yandex_stt_request() {
    assert_eq!(
        yandex_stt_url("f1", "ru"),
        "https://stt.api.cloud.yandex.net/speech/stt/v1/recognize?folderId=f1&lang=ru-RU"
    );
    assert_eq!(yandex_stt_url("f1", "de"), "https://stt.api.cloud.yandex.net/speech/stt/v1/recognize?folderId=f1&lang=de");
    assert_eq!(yandex_authorization("abc"), "Api-Key abc");
}

#[test]
fn pending_audio_keeps_blocked_bytes_until_flushed() {
    let mut p = PendingAudio::new();
    assert!(p.is_empty());
    assert!(p.after_send(&vec![1, 2], SendOutcome::Sent).is_ok());
    assert!(p.is_empty());
    assert!(p.after_send(&vec![1, 2], SendOutcome::WouldBlock).is_ok());
    assert!(p.after_send(&vec![3], SendOutcome::WouldBlock).is_ok());
    assert_eq!(p.snapshot(), vec![1, 2, 3]);
    assert!(p.after_flush(SendOutcome::WouldBlock).is_ok());
    assert_eq!(p.snapshot(), vec![1, 2, 3]);
    assert_eq!(p.after_flush(SendOutcome::Failed("x".into())), Err("Failed to flush pending audio: x".to_string()));
    assert!(p.after_flush(SendOutcome::Sent).is_ok());
    assert!(p.is_empty());
    assert_eq!(p.after_send(&vec![9], SendOutcome::Failed("y".into())), Err("Failed to send audio to Deepgram: y".to_string()));
}

#[test]
fn pending_audio_drops_the_oldest_beyond_its_bound() {
    let mut p = PendingAudio::new();
    let big: Vec<u8> = (0..70000u32).map(|i| (i % 251) as u8).collect();
    assert!(p.after_send(&big, SendOutcome::WouldBlock).is_ok());
    let kept = p.snapshot();
    assert_eq!(kept.len(), 65536);
    assert_eq!(&kept[..], &big[70000 - 65536..]);
}

#[test]
fn provider_choice() {
    assert_eq!(SttProvider::parse("auto"), SttProvider::Auto);
    assert_eq!(SttProvider::parse("Auto"), SttProvider::Other);
    assert_eq!(initial_session(SttProvider::Yandex, false), None);
    assert_eq!(initial_session(SttProvider::Yandex, true), Some(SttKind::Yandex));
    assert_eq!(initial_session(SttProvider::Other, true), None);
    assert_eq!(after_deepgram_failure(SttProvider::Auto, true), Some(SttKind::Yandex));
    assert_eq!(after_deepgram_failure(SttProvider::Auto, false), Some(SttKind::Whisper));
    assert_eq!(after_deepgram_failure(SttProvider::Deepgram, true), None);
    assert_eq!(no_provider_message("incoming", "x"), "[incoming] No valid STT provider configured (provider='x')");
    assert_eq!(session_failed_message("outgoing", "boom"), "[outgoing] Failed to create STT session: boom");
}

// ---- PCM and framing ----

#[test]
fn pcm16_little_endian() {
    assert_eq!(pcm16_le_bytes(&vec![1, -2, 256]), vec![1, 0, 254, 255, 0, 1]);
}

#[test]
fn pcm16_base64_encodes_the_bytes() {
    assert_eq!(pcm16_base64(&vec![1, -1]), "AQD//w==");
    assert_eq!(pcm16_base64(&vec![]), "");
}

#[test]
fn decode_pcm_widths() {
    assert_eq!(decode_pcm(&[1, 0, 255, 255], 16), Some(vec![1, -1]));
    assert_eq!(decode_pcm(&[0, 0, 128, 1, 0, 0], 24), Some(vec![-8388608, 1]));
    assert_eq!(decode_pcm(&[0, 0, 0, 128], 32), Some(vec![i32::MIN]));
    assert_eq!(decode_pcm(&[1, 0, 2], 16), Some(vec![1]));
    assert_eq!(decode_pcm(&[1, 2], 8), None);
    assert_eq!(silence_len(10, 8), 10);
    assert_eq!(silence_len(16, 64), 2);
}

#[test]
fn framing_round_trip() {
    let framed = frame_message(&vec![7, 8]);
    assert_eq!(framed, vec![0, 0, 0, 2, 7, 8]);
    assert_eq!(frame_len([0, 0, 1, 2]), 258);
    assert_eq!(frame_len([framed[0], framed[1], framed[2], framed[3]]), 2);
}

// ---- phonemes ----

#[test]
fn phonemes_to_ids_follows_piper() {
    let map = PhonemeIdMap::new(vec![
        ("^".to_string(), vec![1]),
        ("$".to_string(), vec![2]),
        ("_".to_string(), vec![0]),
        ("a".to_string(), vec![5]),
        ("ʃ".to_string(), vec![6, 7]),
    ]);
    assert_eq!(map.phonemes_to_ids("aʃ?"), vec![1, 5, 0, 6, 7, 0, 2]);
    assert_eq!(map.phonemes_to_ids(""), vec![1, 2]);
    let bare = PhonemeIdMap::new(vec![("a".to_string(), vec![5])]);
    assert_eq!(bare.phonemes_to_ids("aa"), vec![5, 5]);
}

// ---- text ----

#[test]
fn segments_are_clean_pieces_of_the_text() {
    let mut s = audio_engine::segmenter::TextSegmenter::new();
    assert_eq!(s.next_segment(" \u{a0}hello  "), Some("hello  ".to_string()));
    assert_eq!(s.next_segment(" \u{a0}hello  \tworld "), Some("world ".to_string()));
    assert_eq!(s.next_segment(" \u{a0}hello  \tworld \u{3000}"), None);
}

#[test]
fn engine_lifecycle_over_a_sequence() {
    let mut e = engine();
    let _ = e.handle_command(Command::Start { pipelines: strings(&["outgoing"]) });
    let _ = e.finish_start(strings(&["outgoing"]), Err("x".into()));
    assert_eq!(e.state(), EngineState::Idle);
    let _ = e.handle_command(Command::Start { pipelines: strings(&["outgoing"]) });
    let _ = e.finish_start(strings(&["outgoing"]), Ok(()));
    let _ = e.handle_command(Command::Ping);
    let _ = e.handle_command(Command::ListDevices);
    let _ = e.handle_command(Command::Start { pipelines: strings(&["incoming"]) });
    assert_eq!(e.state(), EngineState::Running);
    let step = e.handle_command(Command::Shutdown);
    assert!(matches!(step.events[..], [Event::Stopped]));
    assert!(e.is_shutting_down());
}

#[test]
fn trim_uses_unicode_whitespace() {
    assert_eq!(trim_str("\u{3000} hi there\t\n"), "hi there");
    assert_eq!(trim_str("   "), "");
}

// ---- trace log ----

#[test]
fn trace_line_format() {
    assert_eq!(
        format_trace_line(3_723_004, "outgoing", "STT", "hello"),
        "[01:02:03.004] [  outgoing] [         STT] hello"
    );
    assert_eq!(format_trace_line(86_400_000 + 59_999, "a-very-long-name", "S", "m"), "[00:00:59.999] [a-very-long-name] [           S] m");
}

#[test]
fn old_logs_are_pruned() {
    assert!(should_prune("old.log", Some(1000), 1000 + 86400 + 1));
    assert!(!should_prune("old.log", Some(1000), 1000 + 86400));
    assert!(!should_prune("pipeline_trace.log", Some(0), 1_000_000));
    assert!(!should_prune("notes.txt", Some(0), 1_000_000));
    assert!(should_prune("x.log", None, 86401));
    assert!(!should_prune("x.log", None, 100));
}

// ---- devices ----

#[test]
fn device_choice() {
    let names = strings(&["Mic", "Jabra", "Jabra"]);
    assert_eq!(choose_device(&names, "default"), DeviceChoice::Default);
    assert_eq!(choose_device(&vec![], "default"), DeviceChoice::Default);
    assert!(!needs_device_list("default"));
    assert!(needs_device_list("Jabra"));
    assert_eq!(choose_device(&names, "Jabra"), DeviceChoice::Found(1));
    assert_eq!(choose_device(&names, "jabra"), DeviceChoice::NotFound);
    assert_eq!(
        device_not_found_message(DeviceDirection::Input, "X", &strings(&["A", "B"])),
        "Input device 'X' not found. Available input devices: [\"A\", \"B\"]"
    );
    assert!(loopback_name_matches("Speakers (Jabra Link 380)", "Jabra"));
    assert!(!loopback_name_matches("Speakers", "Jabra"));
}

#[test]
fn device_report_lists_everything() {
    let r = device_report(&Some("Mic".into()), &None, &strings(&["Mic", "Cable"]), &strings(&[]));
    assert_eq!(
        r,
        "Default INPUT device: Mic\nNo default output device\nAvailable INPUT devices:\n  'Mic'\n  'Cable'\nAvailable OUTPUT devices:"
    );
}

// ---- translation ----

#[test]
fn language_names_and_directions() {
    assert_eq!(lang_name("ru"), "Russian");
    assert_eq!(lang_name("zh"), "Chinese");
    assert_eq!(lang_name("xx"), "xx");
    let d = TranslationDirection::new("ru", "en");
    assert_eq!(d.from_name, "Russian");
    assert_eq!(d.to_name, "English");
    assert_eq!(d.label(), "ru→en");
}

#[test]
fn prompts_and_headers() {
    assert_eq!(
        translation_prompt("ru", "en"),
        "You are a machine translation API. Your ONLY output is the en translation of the user's ru text. \
         No explanations. No greetings. No disclaimers. Just the translation, word for word."
    );
    assert_eq!(bearer("t0k"), "Bearer t0k");
    assert_eq!(audio_engine::translation::GROQ_MODEL, "llama-3.3-70b-versatile");
    let t = LiteLlmTranslator::new("http://host:4000//", "k", "m");
    assert_eq!(t.base_url, "http://host:4000");
    assert_eq!(t.completions_url(), "http://host:4000/chat/completions");
    assert!(!YandexTranslator::needs_request(" \t"));
    assert!(YandexTranslator::needs_request("a"));
    assert_eq!(YandexTranslator::error_message("403 Forbidden", "no"), "Yandex error 403 Forbidden: no");
}

fn engine_with(provider: &str, groq: &str, yandex: &str, litellm_url: &str, litellm_key: &str) -> TranslationEngine {
    TranslationEngine::new(groq, yandex, "folder", provider, litellm_url, litellm_key, "model", "", "")
}

#[test]
fn translation_plans() {
    let ru_en = TranslationDirection::new("ru", "en");
    let en_de = TranslationDirection::new("en", "de");
    assert!(matches!(engine_with("groq", "gsk_123", "", "", "").plan("  ", &ru_en), TranslationPlan::Empty));
    assert!(matches!(engine_with("groq", "gsk_123", "", "", "").plan("hi", &ru_en), TranslationPlan::Groq));
    match engine_with("groq", "1234", "", "", "").plan("hi", &ru_en) {
        TranslationPlan::Fail(e) => assert_eq!(e, "Groq selected but no valid API key"),
        _ => panic!("expected a failure"),
    }
    assert!(matches!(engine_with("local_mt", "", "", "", "").plan("hi", &ru_en), TranslationPlan::LocalMt(_)));
    match engine_with("local_mt", "", "", "", "").plan("hi", &en_de) {
        TranslationPlan::Fail(e) => assert_eq!(e, "Local MT not available for en→de"),
        _ => panic!("expected a failure"),
    }
    match engine_with("auto", "gsk_123", "", "", "key").plan("hi", &ru_en) {
        TranslationPlan::Hedge { groq, litellm, yandex } => assert!(groq && !litellm && !yandex),
        _ => panic!("expected a hedge"),
    }
    match engine_with("auto", "", "AQVN1", "http://h", "key").plan("hi", &ru_en) {
        TranslationPlan::Hedge { groq, litellm, yandex } => assert!(!groq && litellm && yandex),
        _ => panic!("expected a hedge"),
    }
    match engine_with("auto", "", "", "", "").plan("hi", &ru_en) {
        TranslationPlan::Fail(e) => assert_eq!(e, "No valid API keys available for translation"),
        _ => panic!("expected a failure"),
    }
}

#[test]
fn first_success_prefers_a_success() {
    let r = first_success(vec![
        HedgeReply { provider: "groq".into(), result: Err("e1".into()) },
        HedgeReply { provider: "yandex".into(), result: Ok("hi".into()) },
        HedgeReply { provider: "litellm".into(), result: Ok("hey".into()) },
    ]);
    assert_eq!(r, Ok(("hi".to_string(), "yandex".to_string())));
    let r = first_success(vec![
        HedgeReply { provider: "groq".into(), result: Err("e1".into()) },
        HedgeReply { provider: "yandex".into(), result: Err("e2".into()) },
    ]);
    assert_eq!(r, Err("e2".to_string()));
    assert_eq!(first_success(vec![]), Err("All providers failed".to_string()));
}

#[test]
fn chat_retry_policy() {
    let mut r = ChatRetry::new(ChatProvider::Groq);
    let server_error = || HttpOutcome::Status { code: 503, status: "503 Service Unavailable".into(), body: "busy".into() };
    assert!(matches!(r.on_outcome(server_error()), RetryStep::RetryAfter(1000)));
    assert!(matches!(r.on_outcome(server_error()), RetryStep::RetryAfter(2000)));
    match r.on_outcome(server_error()) {
        RetryStep::Done(Err(e)) => assert_eq!(e, "Groq error 503 Service Unavailable: busy"),
        _ => panic!("expected the last error"),
    }
    let mut r = ChatRetry::new(ChatProvider::LiteLlm);
    match r.on_outcome(HttpOutcome::Status { code: 401, status: "401 Unauthorized".into(), body: "no".into() }) {
        RetryStep::Done(Err(e)) => assert_eq!(e, "LiteLLM error 401 Unauthorized: no"),
        _ => panic!("expected a client error"),
    }
    let mut r = ChatRetry::new(ChatProvider::LiteLlm);
    assert!(matches!(r.on_outcome(HttpOutcome::Failed { error: "dns".into() }), RetryStep::RetryAfter(500)));
    match r.on_outcome(HttpOutcome::Completed { content: Some("  \"hello\"  ".into()) }) {
        RetryStep::Done(Ok(t)) => assert_eq!(t, "\"hello\""),
        _ => panic!("expected a translation"),
    }
}

// ---- model output clean-up ----

#[test]
fn clean_up_takes_the_quoted_translation() {
    assert_eq!(
        try_clean_groq_output("The phrase \"привет\" translates to \"hello\"."),
        Some("hello".to_string())
    );
    assert_eq!(try_clean_groq_output("It translates to hello world. Done"), Some("hello world".to_string()));
}

#[test]
fn clean_up_takes_the_last_quoted_segment() {
    assert_eq!(try_clean_groq_output("\"привет\" - hello"), Some("- hello".to_string()));
}

#[test]
fn clean_up_drops_commentary() {
    assert_eq!(try_clean_groq_output("Okay, let's see. Hello there."), Some("Hello there".to_string()));
    // Commentary is found in any letter case.
    assert_eq!(try_clean_groq_output("OKAY. Hello there."), Some("Hello there".to_string()));
    assert_eq!(try_clean_groq_output("  plain text  "), Some("plain text".to_string()));
}

#[test]
fn completion_content_is_trimmed_and_cleaned() {
    assert_eq!(completion_translation(None), Some(String::new()));
    assert_eq!(completion_translation(Some("  hi  ".into())), Some("hi".to_string()));
}

#[test]
fn quote_and_substring_helpers() {
    assert_eq!(strip_quotes_str("\"\"hi\""), "hi");
    assert!(contains_str("abc", "bc"));
    assert!(!contains_str("abc", "cb"));
}

// ---- engine commands ----

fn engine() -> Engine {
    Engine::new(EngineConfig::from_sources(no_sources()))
}

#[test]
fn ping_pong() {
    let mut e = engine();
    let step = e.handle_command(Command::Ping);
    assert!(matches!(step.events[..], [Event::Pong]));
    assert!(matches!(step.action, EngineAction::Nothing));
}

#[test]
fn start_then_refuse_then_stop() {
    let mut e = engine();
    let step = e.handle_command(Command::Start { pipelines: strings(&["outgoing"]) });
    assert!(step.events.is_empty());
    let names = match step.action {
        EngineAction::StartPipelines { pipelines } => pipelines,
        _ => panic!("expected a start"),
    };
    let events = e.finish_start(names, Ok(()));
    assert_eq!(log_message(&events[0]), ("info".to_string(), "Starting pipelines: [\"outgoing\"]".to_string()));
    assert!(matches!(&events[1], Event::Started { pipelines } if pipelines == &strings(&["outgoing"])));
    assert_eq!(e.state(), EngineState::Running);

    let step = e.handle_command(Command::Start { pipelines: strings(&["incoming"]) });
    assert_eq!(error_message(&step.events[0]), "Pipelines already running. Stop first.");
    assert!(matches!(step.action, EngineAction::Nothing));

    let step = e.handle_command(Command::Stop);
    assert_eq!(log_message(&step.events[0]).1, "Pipelines stopped");
    assert!(matches!(step.events[1], Event::Stopped));
    assert!(matches!(step.action, EngineAction::StopPipelines));
    assert_eq!(e.state(), EngineState::Idle);
}

#[test]
fn failed_start_keeps_the_engine_idle() {
    let mut e = engine();
    let events = e.finish_start(strings(&["outgoing"]), Err("no device".into()));
    assert_eq!(error_message(&events[0]), "Failed to start pipelines: no device");
    assert_eq!(e.state(), EngineState::Idle);
}

#[test]
fn settings_change_the_engine() {
    let mut e = engine();
    let step = e.handle_command(Command::SetConfig {
        key: "endpointing_ms".into(),
        value: ConfigValue { text: "5000000000".into(), as_u64: Some(5_000_000_000), as_bool: None },
    });
    assert_eq!(log_message(&step.events[0]).1, "Config set: endpointing_ms = 5000000000");
    assert_eq!(e.config().endpointing_ms, 705_032_704);
    let step = e.handle_command(Command::SetConfig {
        key: "mute_outgoing".into(),
        value: ConfigValue { text: "true".into(), as_u64: None, as_bool: Some(true) },
    });
    assert!(matches!(step.action, EngineAction::StoreMuteOutgoing(true)));
    let step = e.handle_command(Command::SetConfig {
        key: "mute_incoming".into(),
        value: ConfigValue { text: "\"yes\"".into(), as_u64: None, as_bool: None },
    });
    assert!(matches!(step.action, EngineAction::StoreMuteIncoming(false)));
}

#[test]
fn shutdown_stops_only_running_pipelines() {
    let mut e = engine();
    let step = e.handle_command(Command::Shutdown);
    assert!(step.events.is_empty());
    assert!(matches!(step.action, EngineAction::Nothing));
    assert!(e.is_shutting_down());

    let mut e = engine();
    let _ = e.finish_start(vec![], Ok(()));
    let step = e.handle_command(Command::Shutdown);
    assert!(matches!(step.events[..], [Event::Stopped]));
    assert!(matches!(step.action, EngineAction::StopPipelines));
}

#[test]
fn voice_preview_request_and_report() {
    let e = engine();
    let r = e.preview_request(None, "de", "de_DE-thorsten-low");
    assert_eq!(r.model_path, "./models/piper-de/de_DE-thorsten-low.onnx");
    assert_eq!(r.config_path, "./models/piper-de/de_DE-thorsten-low.onnx.json");
    assert_eq!(r.text, "Hallo, dies ist ein Stimmtest.");
    assert_eq!(r.sample_rate, 48000);
    let r = e.preview_request(Some("/v".into()), "xx", "a");
    assert_eq!(r.model_path, "/v/piper-xx/a.onnx");
    assert_eq!(r.text, "Hello, this is a voice preview test.");
    assert_eq!(preview_text("uk"), "Привіт, це тест голосу.");
    assert!(matches!(e.finish_preview(PreviewOutcome::Played)[..], [Event::TtsPreviewDone]));
    assert_eq!(error_message(&e.finish_preview(PreviewOutcome::LoadFailed("x".into()))[0]), "Preview TTS load failed: x");
    assert_eq!(error_message(&e.finish_preview(PreviewOutcome::SynthesisFailed("y".into()))[0]), "Preview synthesis failed: y");
    assert_eq!(error_message(&e.finish_preview(PreviewOutcome::PlaybackFailed("z".into()))[0]), "Preview playback failed: z");
    assert_eq!(error_message(&e.finish_list_devices(Err("e".into()))[0]), "Failed to list devices: e");
}

#[test]
fn pipelines_are_planned_from_the_configuration() {
    let mut s = no_sources();
    s.meet_output_device = Some("CABLE Input".into());
    s.my_language = Some("pt".into());
    let e = Engine::new(EngineConfig::from_sources(s));
    let plans = e.plan_pipelines(&strings(&["incoming", "bogus", "outgoing"]));
    assert_eq!(plans.len(), 2);
    assert_eq!(plans[0].kind, PipelineKind::Incoming);
    assert_eq!(plans[0].direction, "incoming");
    assert_eq!(plans[0].playback_device, "default");
    assert_eq!(plans[0].source_lang, "en");
    assert_eq!(plans[0].translate_direction.to_code, "pt");
    assert_eq!(plans[1].kind, PipelineKind::Outgoing);
    assert_eq!(plans[1].playback_device, "CABLE Input");
    assert_eq!(plans[1].stt.language(), "pt-BR");
    assert_eq!(plans[1].tts_model, "./models/piper-en/en_US-ryan-medium.onnx");
    assert!(!plans[1].use_loopback);
    let default_out = engine().plan_pipelines(&strings(&["outgoing"]));
    assert_eq!(default_out[0].playback_device, "default");
}

#[test]
fn channels_are_expanded() {
    assert_eq!(expand_channels(&vec![1, 2], 2), vec![1, 1, 2, 2]);
    assert_eq!(expand_channels(&vec![1.5f32, -0.5], 3), vec![1.5, 1.5, 1.5, -0.5, -0.5, -0.5]);
    assert_eq!(expand_channels(&vec![1, 2], 1), vec![1, 2]);
    assert_eq!(expand_channels(&vec![1, 2], 0), vec![1, 2]);
}

// ---- processor events ----

#[test]
fn processor_events() {
    match tts_audio_event("outgoing", &vec![1, -1]) {
        Event::TtsAudio { direction, sample_rate, audio_b64 } => {
            assert_eq!(direction, "outgoing");
            assert_eq!(sample_rate, 16000);
            assert_eq!(audio_b64, "AQD//w==");
        }
        _ => panic!("expected audio"),
    }
    assert_eq!(log_message(&first_audio_event("incoming", 42)).1, "[incoming] first_audio=42ms");
    assert_eq!(error_message(&tts_failed_event("incoming", "oops")), "[incoming] TTS failed: oops");
    match metrics_event("outgoing", 1, 2, 3, "groq") {
        Event::Metrics { stt_ms, translate_ms, tts_ms, provider_used, time_to_first_audio_ms, .. } => {
            assert_eq!((stt_ms, translate_ms, tts_ms), (1, 2, 3));
            assert_eq!(provider_used, Some("groq".to_string()));
            assert_eq!(time_to_first_audio_ms, None);
        }
        _ => panic!("expected metrics"),
    }
}

#[test]
fn preload_events() {
    assert_eq!(preload_wait_secs(), 25);
    match preload_status_event("incoming", PreloadStatus::TimedOut) {
        Event::TtsStatus { status, message, .. } => {
            assert_eq!(status, "fail");
            assert_eq!(message, "TTS preload timed out after 30s");
        }
        _ => panic!("expected a status"),
    }
    match preload_status_event("incoming", PreloadStatus::Ready) {
        Event::TtsStatus { status, message, .. } => {
            assert_eq!(status, "ok");
            assert_eq!(message, "TTS engine ready ✓");
        }
        _ => panic!("expected a status"),
    }
}
