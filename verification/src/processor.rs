//! The processing side of a pipeline: which recognised texts are translated,
//! job bookkeeping, and the events of one utterance's translation and speech.
use vstd::prelude::*;
use vstd::string::*;

use crate::job_queue::{JobQueue, JobQueueView, commit_accepts, commit_after, next_id_after, stale_under};
use crate::pcm::{base64_len, base64_standard, le_bytes_i16, pcm16_base64};
use crate::protocol::{Event, EventView};
use crate::segmenter::{TextSegmenter, segment_step};
use crate::text::{decimal, is_blank_str, push_decimal, trim};

verus! {

/// The sample rate, in Hz, of the audio sent to the user interface.
pub const MONITOR_RATE: u32 = 16000;

/// The event reporting a recognised text.
pub fn transcript_event(direction: &str, text: &str, lang: &str, stt_ms: u64) -> (e: Event)
    ensures
        e@ == (EventView::Transcript { direction: direction@, text: text@, lang: lang@, stt_ms }),
{
    Event::Transcript {
        direction: direction.to_string(),
        text: text.to_string(),
        lang: lang.to_string(),
        stt_ms,
    }
}

/// The state of a pipeline's processor.
pub struct ProcessorView {
    /// The stable text already handed out for translation.
    pub last: Seq<char>,
    pub jobs: JobQueueView,
    /// Whether an utterance is being timed until its first audio.
    pub timing: bool,
}

/// What the processor does with a recognised text.
pub enum ProcessorStart {
    /// Nothing new to translate: only show the text.
    Skip(Event),
    /// Translate and speak `text` as job `job_id`; when `start_clock`, the
    /// time to first audio is measured from now.
    Process { job_id: u64, text: String, start_clock: bool },
}

/// What follows a processed job.
pub struct ProcessorFinish {
    /// Report the time to first audio of the utterance.
    pub report_first_audio: bool,
    /// The job's result was committed.
    pub committed: bool,
    /// The job produced audio but a newer job had already committed.
    pub stale_dropped: bool,
    /// Raise the other pipeline's echo suppression while the audio plays.
    pub suppress_other: bool,
}

/// The translation side of a pipeline.
pub struct Processor {
    segmenter: TextSegmenter,
    jobs: JobQueue,
    timing: bool,
}

impl View for Processor {
    type V = ProcessorView;

    closed spec fn view(&self) -> ProcessorView {
        ProcessorView { last: self.segmenter@, jobs: self.jobs@, timing: self.timing }
    }
}

/// The state after a recognised text arrives.
pub open spec fn begin_state(v: ProcessorView, text: Seq<char>) -> ProcessorView {
    let (last, seg) = segment_step(v.last, text);
    match seg {
        None => ProcessorView { last, ..v },
        Some(_) => ProcessorView {
            last,
            jobs: JobQueueView { next_id: next_id_after(v.jobs.next_id), ..v.jobs },
            timing: true,
            ..v
        },
    }
}

/// The state after a job that produced `audio_len` samples.
pub open spec fn finish_state(v: ProcessorView, job_id: u64, audio_len: nat) -> ProcessorView {
    let stale = stale_under(v.jobs.last_commit, job_id) && audio_len > 0;
    ProcessorView {
        timing: v.timing && !(audio_len > 0),
        jobs: if stale { v.jobs } else { JobQueueView { last_commit: commit_after(v.jobs, job_id), ..v.jobs } },
        ..v
    }
}

impl Processor {
    /// A processor that has handled nothing.
    pub fn new() -> (p: Self)
        ensures
            p@ == (ProcessorView {
                last: Seq::empty(),
                jobs: JobQueueView { next_id: 1, last_commit: 0 },
                timing: false,
            }),
    {
        Processor { segmenter: TextSegmenter::new(), jobs: JobQueue::new(), timing: false }
    }

    /// Handles a recognised text: only its part not yet handed out is
    /// translated, as a new job; when nothing is new the text is only shown.
    pub fn begin(&mut self, direction: &str, source_lang: &str, text: &str, stt_ms: u64) -> (r: ProcessorStart)
        ensures
            final(self)@ == begin_state(old(self)@, text@),
            segment_step(old(self)@.last, text@).1 is None ==> (r matches ProcessorStart::Skip(e) && e@
                == (EventView::Transcript { direction: direction@, text: text@, lang: source_lang@, stt_ms })),
            segment_step(old(self)@.last, text@).1 matches Some(seg) ==> (r matches ProcessorStart::Process {
                job_id,
                text: t,
                start_clock,
            } && job_id == old(self)@.jobs.next_id && t@ == seg && start_clock == !old(self)@.timing),
    {
        match self.segmenter.next_segment(text) {
            None => ProcessorStart::Skip(transcript_event(direction, text, source_lang, stt_ms)),
            Some(delta) => {
                let job_id = self.jobs.next_job();
                let start_clock = !self.timing;
                self.timing = true;
                ProcessorStart::Process { job_id, text: delta, start_clock }
            },
        }
    }

    /// Handles the end of job `job_id`, which produced `audio_len` samples.
    pub fn finish(&mut self, job_id: u64, audio_len: usize) -> (f: ProcessorFinish)
        ensures
            final(self)@ == finish_state(old(self)@, job_id, audio_len as nat),
            f.report_first_audio == (audio_len > 0 && old(self)@.timing),
            f.stale_dropped == (stale_under(old(self)@.jobs.last_commit, job_id) && audio_len > 0),
            f.committed == (!f.stale_dropped && commit_accepts(old(self)@.jobs, job_id)),
            f.suppress_other == (audio_len > 0),
    {
        let report = audio_len > 0 && self.timing;
        if audio_len > 0 {
            self.timing = false;
        }
        let stale = self.jobs.is_stale(job_id) && audio_len > 0;
        let committed = if stale { false } else { self.jobs.try_commit(job_id) };
        ProcessorFinish {
            report_first_audio: report,
            committed,
            stale_dropped: stale,
            suppress_other: audio_len > 0,
        }
    }
}

/// The event reporting the time from an utterance's first translated text to its first audio.
pub fn first_audio_event(direction: &str, ms: u64) -> (e: Event)
    ensures
        e@ == (EventView::Log {
            level: "info"@,
            message: "["@ + direction@ + "] first_audio="@ + decimal(ms as nat) + "ms"@,
        }),
{
    let mut m = "[".to_string();
    m.append(direction);
    m.append("] first_audio=");
    push_decimal(&mut m, ms);
    m.append("ms");
    Event::Log { level: "info".to_string(), message: m }
}

/// How a translation request ended.
pub enum TranslationOutcome {
    Translated { text: String, provider: String },
    Failed(String),
    /// The translating thread died.
    Crashed,
    /// No answer within the time limit.
    TimedOut,
}

/// The event reporting a translation, and what to speak with which provider, if anything.
pub struct TranslationStep {
    pub event: Event,
    pub speak: Option<(String, String)>,
}

/// Reports how a translation ended and whether its text is to be spoken:
/// failures are shown in place of the translation and end the utterance, as
/// does a blank translation.
pub fn after_translation(direction: &str, outcome: TranslationOutcome, translate_ms: u64) -> (s: TranslationStep)
    ensures
        outcome matches TranslationOutcome::Translated { text, provider } ==> ({
            &&& s.event@ == (EventView::Translation { direction: direction@, text: text@, translate_ms })
            &&& (trim(text@).len() == 0 ==> s.speak is None)
            &&& (trim(text@).len() != 0 ==> (s.speak matches Some(sp) && sp.0@ == text@ && sp.1@ == provider@))
        }),
        outcome matches TranslationOutcome::Failed(e) ==> (s.speak is None && s.event@ == (EventView::Translation {
            direction: direction@,
            text: "ERROR: "@ + e@,
            translate_ms,
        })),
        outcome is Crashed ==> (s.speak is None && s.event@ == (EventView::Translation {
            direction: direction@,
            text: "ERROR: translator crashed"@,
            translate_ms,
        })),
        outcome is TimedOut ==> (s.speak is None && s.event@ == (EventView::Translation {
            direction: direction@,
            text: "TIMEOUT after "@ + decimal(translate_ms as nat) + "ms"@,
            translate_ms,
        })),
{
    let (shown, speak) = match outcome {
        TranslationOutcome::Translated { text, provider } => {
            let shown = text.clone();
            let speak = if is_blank_str(text.as_str()) { None } else { Some((text, provider)) };
            (shown, speak)
        },
        TranslationOutcome::Failed(e) => {
            let mut m = "ERROR: ".to_string();
            m.append(e.as_str());
            (m, None)
        },
        TranslationOutcome::Crashed => ("ERROR: translator crashed".to_string(), None),
        TranslationOutcome::TimedOut => {
            let mut m = "TIMEOUT after ".to_string();
            push_decimal(&mut m, translate_ms);
            m.append("ms");
            (m, None)
        },
    };
    TranslationStep {
        event: Event::Translation { direction: direction.to_string(), text: shown, translate_ms },
        speak,
    }
}

/// The event reporting a failed synthesis.
pub fn tts_failed_event(direction: &str, err: &str) -> (e: Event)
    ensures
        e@ == (EventView::Error { message: "["@ + direction@ + "] TTS failed: "@ + err@ }),
{
    let mut m = "[".to_string();
    m.append(direction);
    m.append("] TTS failed: ");
    m.append(err);
    Event::Error { message: m }
}

/// The event carrying synthesized speech for the user interface: 16 kHz
/// 16-bit little-endian PCM in base64.
pub fn tts_audio_event(direction: &str, monitor_pcm: &Vec<i16>) -> (e: Event)
    requires
        base64_len(2 * monitor_pcm@.len()) <= usize::MAX,
    ensures
        e@ == (EventView::TtsAudio {
            direction: direction@,
            sample_rate: MONITOR_RATE,
            audio_b64: base64_standard(le_bytes_i16(monitor_pcm@)),
        }),
{
    Event::TtsAudio {
        direction: direction.to_string(),
        sample_rate: MONITOR_RATE,
        audio_b64: pcm16_base64(monitor_pcm),
    }
}

/// The event reporting an utterance's stage timings and provider.
pub fn metrics_event(direction: &str, stt_ms: u64, translate_ms: u64, tts_ms: u64, provider: &str) -> (e: Event)
    ensures
        e@ == (EventView::Metrics {
            direction: direction@,
            stt_ms,
            translate_ms,
            tts_ms,
            provider_used: Some(provider@),
            time_to_first_audio_ms: None,
        }),
{
    Event::Metrics {
        direction: direction.to_string(),
        stt_ms,
        translate_ms,
        tts_ms,
        provider_used: Some(provider.to_string()),
        time_to_first_audio_ms: None,
    }
}

} // verus!

verus! {

/// How long a voice may take to load before the pipeline goes on without speech.
pub const TTS_PRELOAD_TIMEOUT_SECS: u64 = 30;

/// How long the preloader waits for the loading thread: five seconds less
/// than the limit, but at least ten.
pub fn preload_wait_secs() -> (s: u64)
    ensures
        s == 25,
{
    let s = TTS_PRELOAD_TIMEOUT_SECS.saturating_sub(5);
    if s > 10 { s } else { 10 }
}

/// The stages of loading a pipeline's voice in the background.
pub enum PreloadStatus {
    Starting,
    Ready,
    Failed(String),
    /// The loading thread died.
    Crashed,
    /// Loading took too long.
    TimedOut,
}

/// The event reporting a stage of voice loading.
pub fn preload_status_event(direction: &str, status: PreloadStatus) -> (e: Event)
    ensures
        status is Starting ==> e@ == (EventView::TtsStatus {
            direction: direction@,
            status: "starting"@,
            message: "background TTS preload started"@,
        }),
        status is Ready ==> e@ == (EventView::TtsStatus {
            direction: direction@,
            status: "ok"@,
            message: "TTS engine ready ✓"@,
        }),
        status matches PreloadStatus::Failed(m) ==> e@ == (EventView::TtsStatus {
            direction: direction@,
            status: "fail"@,
            message: m@,
        }),
        status is Crashed ==> e@ == (EventView::TtsStatus {
            direction: direction@,
            status: "fail"@,
            message: "TTS preload thread crashed"@,
        }),
        status is TimedOut ==> e@ == (EventView::TtsStatus {
            direction: direction@,
            status: "fail"@,
            message: "TTS preload timed out after "@ + decimal(TTS_PRELOAD_TIMEOUT_SECS as nat) + "s"@,
        }),
{
    let (st, msg) = match status {
        PreloadStatus::Starting => ("starting".to_string(), "background TTS preload started".to_string()),
        PreloadStatus::Ready => ("ok".to_string(), "TTS engine ready ✓".to_string()),
        PreloadStatus::Failed(m) => ("fail".to_string(), m),
        PreloadStatus::Crashed => ("fail".to_string(), "TTS preload thread crashed".to_string()),
        PreloadStatus::TimedOut => {
            let mut m = "TTS preload timed out after ".to_string();
            push_decimal(&mut m, TTS_PRELOAD_TIMEOUT_SECS);
            m.append("s");
            ("fail".to_string(), m)
        },
    };
    Event::TtsStatus { direction: direction.to_string(), status: st, message: msg }
}

/// Each new segment becomes a job with the next ID and starts timing the
/// utterance; a text with nothing new creates no job.
pub proof fn law_one_job_per_segment(v: ProcessorView, text: Seq<char>)
    ensures
        segment_step(v.last, text).1 is Some ==> begin_state(v, text).jobs.next_id == next_id_after(v.jobs.next_id)
            && begin_state(v, text).timing,
        segment_step(v.last, text).1 is None ==> begin_state(v, text).jobs == v.jobs
            && begin_state(v, text).timing == v.timing,
{
}

/// The time to first audio is reported at most once per utterance: after a
/// job that produced audio, another one does not report it until a new
/// segment starts timing again.
pub proof fn law_first_audio_once(v: ProcessorView, job: u64, audio_len: nat, next_job: u64, next_len: nat)
    requires
        audio_len > 0,
    ensures
        !finish_state(v, job, audio_len).timing,
        !finish_state(finish_state(v, job, audio_len), next_job, next_len).timing,
{
}

/// A job that produced nothing is still committed when it is the newest.
pub proof fn law_silent_jobs_commit(v: ProcessorView, job: u64)
    requires
        commit_accepts(v.jobs, job),
    ensures
        finish_state(v, job, 0).jobs.last_commit == job,
{
}

} // verus!
