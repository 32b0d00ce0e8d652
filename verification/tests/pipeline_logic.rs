use audio_engine::job_queue::JobQueue;
use audio_engine::pipeline::{
    backoff_ms, chunk_is_streamed, keepalive_samples, route_result, AttemptStep, LoopStart, ReconnectStart, SttKind, SttProvider, SttSupervisor,
};
use audio_engine::processor::{after_translation, Processor, ProcessorStart, TranslationOutcome};
use audio_engine::protocol::Event;
use audio_engine::segmenter::TextSegmenter;
use audio_engine::stt::{SttResult, SttResultKind};

#[test]
fn segmenter_new_utterance_is_trimmed() {
    let mut s = TextSegmenter::new();
    assert_eq!(s.next_segment("  hello world  "), Some("hello world  ".to_string()));
}

#[test]
fn segmenter_hands_out_only_the_delta() {
    let mut s = TextSegmenter::new();
    assert_eq!(s.next_segment("hello"), Some("hello".to_string()));
    assert_eq!(s.next_segment("hello world"), Some("world".to_string()));
    assert_eq!(s.next_segment("hello world"), None);
}

#[test]
fn segmenter_resets_on_a_new_utterance() {
    let mut s = TextSegmenter::new();
    assert_eq!(s.next_segment("hello"), Some("hello".to_string()));
    assert_eq!(s.next_segment("  good bye  "), Some("good bye".to_string()));
    assert_eq!(s.next_segment("   "), None);
}

#[test]
fn segmenter_ignores_whitespace_only_growth() {
    let mut s = TextSegmenter::new();
    assert_eq!(s.next_segment("hi"), Some("hi".to_string()));
    assert_eq!(s.next_segment("hi   "), None);
    assert_eq!(s.next_segment("hi   there"), Some("there".to_string()));
}

#[test]
fn segmenter_reset_forgets() {
    let mut s = TextSegmenter::new();
    assert_eq!(s.next_segment("hello"), Some("hello".to_string()));
    s.reset();
    assert_eq!(s.next_segment("hello"), Some("hello".to_string()));
}

#[test]
fn job_queue_numbers_and_commits() {
    let mut q = JobQueue::new();
    let a = q.next_job();
    let b = q.next_job();
    assert_eq!((a, b), (1, 2));
    assert!(q.try_commit(b));
    assert!(q.is_stale(a));
    assert!(!q.try_commit(a));
    assert!(!q.try_commit(b));
    assert!(!q.is_stale(b));
}

#[test]
fn superseded_jobs_are_not_committed() {
    let mut q = JobQueue::new();
    let a = q.next_job();
    let b = q.next_job();
    assert!(!q.try_commit(a));
    assert!(q.try_commit(b));
    let c = q.next_job();
    assert!(q.try_commit(c));
    assert!(!q.try_commit(c));
}

#[test]
fn nothing_issued_nothing_committed() {
    let mut q = JobQueue::new();
    assert!(!q.try_commit(1));
    assert!(!q.try_commit(0));
}

fn attempt(r: ReconnectStart) -> (u64, SttKind) {
    match r {
        ReconnectStart::Attempt { backoff_ms, first } => (backoff_ms, first),
        ReconnectStart::GiveUp(_) => panic!("expected a reconnect attempt"),
    }
}

#[test]
fn five_failed_reconnects_stop_the_pipeline() {
    let mut s = SttSupervisor::new(SttProvider::Deepgram, false, SttKind::Deepgram);
    s.on_stream_error();
    let mut waits = Vec::new();
    for _ in 0..5 {
        let (ms, first) = attempt(s.begin_reconnect("incoming"));
        waits.push(ms);
        assert_eq!(s.attempt_result(first, false), AttemptStep::Restart);
    }
    assert_eq!(waits, vec![2000, 4000, 8000, 16000, 30000]);
    match s.begin_reconnect("incoming") {
        ReconnectStart::GiveUp(Event::Error { message }) => {
            assert_eq!(message, "[incoming] STT reconnect failed after 5 attempts, stopping pipeline")
        }
        _ => panic!("expected the pipeline to give up"),
    }
}

#[test]
fn a_successful_reconnect_restarts_the_count() {
    let mut s = SttSupervisor::new(SttProvider::Deepgram, false, SttKind::Deepgram);
    s.on_stream_error();
    for _ in 0..4 {
        let (_, first) = attempt(s.begin_reconnect("incoming"));
        s.attempt_result(first, false);
    }
    let (_, first) = attempt(s.begin_reconnect("incoming"));
    assert_eq!(s.attempt_result(first, true), AttemptStep::Resume);
    s.on_stream_error();
    assert_eq!(attempt(s.begin_reconnect("incoming")).0, 2000);
}

#[test]
fn echo_suppressed_transcripts_are_logged_and_dropped() {
    for kind in [SttResultKind::Final, SttResultKind::StablePartial, SttResultKind::Partial] {
        let r = route_result(
            "outgoing",
            "ru",
            SttResult { text: "hello".to_string(), stt_latency_ms: 3, kind },
            true,
        );
        assert!(r.forward.is_none());
        match r.event {
            Some(Event::Log { level, message }) => {
                assert_eq!(level, "debug");
                assert_eq!(message, "[outgoing] Echo suppressed, dropping transcript: 'hello'");
            }
            _ => panic!("expected a log event"),
        }
    }
}

#[test]
fn backoff_doubles_and_caps() {
    let v: Vec<u64> = (1..=7).map(backoff_ms).collect();
    assert_eq!(v, vec![2000, 4000, 8000, 16000, 30000, 30000, 30000]);
    assert_eq!(backoff_ms(0), 2000);
    assert_eq!(backoff_ms(u32::MAX), 30000);
}

#[test]
fn keepalive_is_eight_ms_of_silence() {
    assert_eq!(keepalive_samples(16000), 128);
}

#[test]
fn auto_mode_falls_back_to_yandex_then_whisper() {
    let mut s = SttSupervisor::new(SttProvider::Auto, true, SttKind::Deepgram);
    for _ in 0..3 {
        s.on_stream_error();
    }
    assert_eq!(attempt(s.begin_reconnect("outgoing")), (2000, SttKind::Yandex));
    assert_eq!(s.attempt_result(SttKind::Yandex, false), AttemptStep::TryNext(SttKind::Whisper));
    assert_eq!(s.attempt_result(SttKind::Whisper, false), AttemptStep::Restart);
    assert!(s.need_reconnect());
    assert_eq!(attempt(s.begin_reconnect("outgoing")).0, 4000);
    assert_eq!(s.attempt_result(SttKind::Yandex, true), AttemptStep::Restart);
    assert!(!s.need_reconnect());
    assert_eq!(s.reconnect_attempts(), 0);
    assert_eq!(s.current(), SttKind::Yandex);
}

#[test]
fn deepgram_mode_keeps_reconnecting_deepgram() {
    let mut s = SttSupervisor::new(SttProvider::Deepgram, true, SttKind::Deepgram);
    for _ in 0..5 {
        s.on_stream_error();
    }
    assert_eq!(attempt(s.begin_reconnect("outgoing")).1, SttKind::Deepgram);
    assert_eq!(s.attempt_result(SttKind::Deepgram, true), AttemptStep::Resume);
    assert_eq!(s.drop_count(), 5);
}

#[test]
fn provider_names_parse() {
    assert_eq!(SttProvider::parse("auto"), SttProvider::Auto);
    assert_eq!(SttProvider::parse("whisper"), SttProvider::Whisper);
    assert_eq!(SttProvider::parse("Auto"), SttProvider::Other);
}

#[test]
fn every_hundredth_loop_reports() {
    let mut s = SttSupervisor::new(SttProvider::Auto, false, SttKind::Deepgram);
    for _ in 0..99 {
        assert!(s.finish_iteration("outgoing").is_none());
    }
    match s.finish_iteration("outgoing") {
        Some(Event::Log { level, message }) => {
            assert_eq!(level, "debug");
            assert_eq!(message, "[outgoing] Loop #100 alive");
        }
        _ => panic!("expected a log event"),
    }
}

#[test]
fn stable_partials_are_shown_and_translated() {
    let r = route_result(
        "incoming",
        "en",
        SttResult { text: "hello".to_string(), stt_latency_ms: 42, kind: SttResultKind::StablePartial },
        false,
    );
    assert!(matches!(r.event, Some(Event::StablePartialTranscript { .. })));
    assert_eq!(r.forward, Some(("hello".to_string(), 42)));
    let f = route_result(
        "incoming",
        "en",
        SttResult { text: "bye".to_string(), stt_latency_ms: 7, kind: SttResultKind::Final },
        false,
    );
    assert!(f.event.is_none());
    assert_eq!(f.forward, Some(("bye".to_string(), 7)));
    let p = route_result(
        "incoming",
        "en",
        SttResult { text: "he".to_string(), stt_latency_ms: 1, kind: SttResultKind::Partial },
        false,
    );
    assert!(p.forward.is_none());
}

#[test]
fn processor_translates_deltas_as_jobs() {
    let mut p = Processor::new();
    match p.begin("outgoing", "ru", "привет", 10) {
        ProcessorStart::Process { job_id, text, start_clock } => {
            assert_eq!(job_id, 1);
            assert_eq!(text, "привет");
            assert!(start_clock);
        }
        _ => panic!("expected a job"),
    }
    match p.begin("outgoing", "ru", "привет", 11) {
        ProcessorStart::Skip(Event::Transcript { text, stt_ms, .. }) => {
            assert_eq!(text, "привет");
            assert_eq!(stt_ms, 11);
        }
        _ => panic!("expected only a transcript"),
    }
    let f = p.finish(1, 480);
    assert!(f.report_first_audio && f.committed && f.suppress_other && !f.stale_dropped);
    let f2 = p.finish(1, 480);
    assert!(!f2.report_first_audio && !f2.committed);
    match p.begin("outgoing", "ru", "привет мир", 12) {
        ProcessorStart::Process { job_id, .. } => assert_eq!(job_id, 2),
        _ => panic!("expected a job"),
    }
    match p.begin("outgoing", "ru", "привет мир !", 13) {
        ProcessorStart::Process { job_id, .. } => assert_eq!(job_id, 3),
        _ => panic!("expected a job"),
    }
    // Job 2 was superseded by job 3 and is not committed.
    let f = p.finish(2, 0);
    assert!(!f.committed && !f.suppress_other);
    assert!(p.finish(3, 0).committed);
}

#[test]
fn translation_failures_are_shown() {
    let s = after_translation("outgoing", TranslationOutcome::TimedOut, 12001);
    match s.event {
        Event::Translation { text, translate_ms, .. } => {
            assert_eq!(text, "TIMEOUT after 12001ms");
            assert_eq!(translate_ms, 12001);
        }
        _ => panic!(),
    }
    assert!(s.speak.is_none());
    let ok = after_translation(
        "outgoing",
        TranslationOutcome::Translated { text: "hello".to_string(), provider: "groq".to_string() },
        300,
    );
    assert_eq!(ok.speak, Some(("hello".to_string(), "groq".to_string())));
    let blank = after_translation(
        "outgoing",
        TranslationOutcome::Translated { text: "  ".to_string(), provider: "groq".to_string() },
        300,
    );
    assert!(blank.speak.is_none());
}

#[test]
fn loop_iterations_stop_reconnect_or_stream() {
    let mut s = SttSupervisor::new(SttProvider::Auto, false, SttKind::Deepgram);
    assert_eq!(s.loop_start(false), LoopStart::Stream);
    s.on_stream_error();
    assert_eq!(s.loop_start(false), LoopStart::Reconnect);
    assert_eq!(s.loop_start(true), LoopStart::Stop);
}

#[test]
fn muted_pipelines_send_nothing() {
    assert!(!chunk_is_streamed(true));
    assert!(chunk_is_streamed(false));
}
