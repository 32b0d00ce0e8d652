//! Commands the engine receives and events it emits.
use vstd::prelude::*;

verus! {

/// The views of a list of strings.
pub open spec fn strings_view(v: Seq<String>) -> Seq<Seq<char>> {
    v.map_values(|s: String| s@)
}

/// A configuration value as the engine reads it: its JSON text, and its
/// readings as an unsigned integer and as a boolean where it has them.
pub struct ConfigValue {
    pub text: String,
    pub as_u64: Option<u64>,
    pub as_bool: Option<bool>,
}

/// A command sent to the engine.
pub enum Command {
    Ping,
    Start { pipelines: Vec<String> },
    Stop,
    SetConfig { key: String, value: ConfigValue },
    ListDevices,
    TtsPreview { lang: String, voice: String },
    Shutdown,
}

/// An event emitted by the engine.
pub enum Event {
    Pong,
    Error { message: String },
    Log { level: String, message: String },
    Started { pipelines: Vec<String> },
    Stopped,
    DeviceList { input: Vec<String>, output: Vec<String> },
    TtsPreviewDone,
    Transcript { direction: String, text: String, lang: String, stt_ms: u64 },
    PartialTranscript { direction: String, text: String, lang: String, stt_ms: u64 },
    StablePartialTranscript { direction: String, text: String, lang: String, stt_ms: u64 },
    Translation { direction: String, text: String, translate_ms: u64 },
    TtsAudio { direction: String, sample_rate: u32, audio_b64: String },
    TtsStatus { direction: String, status: String, message: String },
    Metrics {
        direction: String,
        stt_ms: u64,
        translate_ms: u64,
        tts_ms: u64,
        provider_used: Option<String>,
        time_to_first_audio_ms: Option<u64>,
    },
}

/// An event with its strings taken by their views.
pub enum EventView {
    Pong,
    Error { message: Seq<char> },
    Log { level: Seq<char>, message: Seq<char> },
    Started { pipelines: Seq<Seq<char>> },
    Stopped,
    DeviceList { input: Seq<Seq<char>>, output: Seq<Seq<char>> },
    TtsPreviewDone,
    Transcript { direction: Seq<char>, text: Seq<char>, lang: Seq<char>, stt_ms: u64 },
    PartialTranscript { direction: Seq<char>, text: Seq<char>, lang: Seq<char>, stt_ms: u64 },
    StablePartialTranscript { direction: Seq<char>, text: Seq<char>, lang: Seq<char>, stt_ms: u64 },
    Translation { direction: Seq<char>, text: Seq<char>, translate_ms: u64 },
    TtsAudio { direction: Seq<char>, sample_rate: u32, audio_b64: Seq<char> },
    TtsStatus { direction: Seq<char>, status: Seq<char>, message: Seq<char> },
    Metrics {
        direction: Seq<char>,
        stt_ms: u64,
        translate_ms: u64,
        tts_ms: u64,
        provider_used: Option<Seq<char>>,
        time_to_first_audio_ms: Option<u64>,
    },
}

impl View for Event {
    type V = EventView;

    open spec fn view(&self) -> EventView {
        match self {
            Event::Pong => EventView::Pong,
            Event::Error { message } => EventView::Error { message: message@ },
            Event::Log { level, message } => EventView::Log { level: level@, message: message@ },
            Event::Started { pipelines } => EventView::Started { pipelines: strings_view(pipelines@) },
            Event::Stopped => EventView::Stopped,
            Event::DeviceList { input, output } => EventView::DeviceList {
                input: strings_view(input@),
                output: strings_view(output@),
            },
            Event::TtsPreviewDone => EventView::TtsPreviewDone,
            Event::Transcript { direction, text, lang, stt_ms } => EventView::Transcript {
                direction: direction@,
                text: text@,
                lang: lang@,
                stt_ms: *stt_ms,
            },
            Event::PartialTranscript { direction, text, lang, stt_ms } => EventView::PartialTranscript {
                direction: direction@,
                text: text@,
                lang: lang@,
                stt_ms: *stt_ms,
            },
            Event::StablePartialTranscript { direction, text, lang, stt_ms } => EventView::StablePartialTranscript {
                direction: direction@,
                text: text@,
                lang: lang@,
                stt_ms: *stt_ms,
            },
            Event::Translation { direction, text, translate_ms } => EventView::Translation {
                direction: direction@,
                text: text@,
                translate_ms: *translate_ms,
            },
            Event::TtsAudio { direction, sample_rate, audio_b64 } => EventView::TtsAudio {
                direction: direction@,
                sample_rate: *sample_rate,
                audio_b64: audio_b64@,
            },
            Event::TtsStatus { direction, status, message } => EventView::TtsStatus {
                direction: direction@,
                status: status@,
                message: message@,
            },
            Event::Metrics { direction, stt_ms, translate_ms, tts_ms, provider_used, time_to_first_audio_ms } => EventView::Metrics {
                direction: direction@,
                stt_ms: *stt_ms,
                translate_ms: *translate_ms,
                tts_ms: *tts_ms,
                provider_used: match provider_used {
                    Some(p) => Some(p@),
                    None => None,
                },
                time_to_first_audio_ms: *time_to_first_audio_ms,
            },
        }
    }
}

/// The views of a list of events.
pub open spec fn events_view(v: Seq<Event>) -> Seq<EventView> {
    v.map_values(|e: Event| e@)
}

} // verus!

verus! {

/// A configuration value with its text taken by its view.
pub struct ConfigValueView {
    pub text: Seq<char>,
    pub as_u64: Option<u64>,
    pub as_bool: Option<bool>,
}

/// A command with its strings taken by their views.
pub enum CommandView {
    Ping,
    Start { pipelines: Seq<Seq<char>> },
    Stop,
    SetConfig { key: Seq<char>, value: ConfigValueView },
    ListDevices,
    TtsPreview { lang: Seq<char>, voice: Seq<char> },
    Shutdown,
}

impl View for Command {
    type V = CommandView;

    open spec fn view(&self) -> CommandView {
        match self {
            Command::Ping => CommandView::Ping,
            Command::Start { pipelines } => CommandView::Start { pipelines: strings_view(pipelines@) },
            Command::Stop => CommandView::Stop,
            Command::SetConfig { key, value } => CommandView::SetConfig {
                key: key@,
                value: ConfigValueView { text: value.text@, as_u64: value.as_u64, as_bool: value.as_bool },
            },
            Command::ListDevices => CommandView::ListDevices,
            Command::TtsPreview { lang, voice } => CommandView::TtsPreview { lang: lang@, voice: voice@ },
            Command::Shutdown => CommandView::Shutdown,
        }
    }
}

/// The text of a list of strings in `Debug` form, such as `["outgoing", "incoming"]`.
pub uninterp spec fn debug_strings(v: Seq<Seq<char>>) -> Seq<char>;

/// Formats a list of strings in `Debug` form.
///
/// Trusted: calls `format!("{:?}", v)`, the `Debug` impl of `Vec<String>`,
/// whose text depends on the strings alone and is named `debug_strings`.
#[verifier::external_body]
pub(crate) fn format_debug_strings(v: &Vec<String>) -> (s: String)
    ensures
        s@ == debug_strings(strings_view(v@)),
{
    format!("{:?}", v)
}

} // verus!
