//! The engine's command handling: its lifecycle, its settings, and the
//! events each command produces.
use vstd::prelude::*;
use vstd::string::*;

use crate::config::EngineConfig;
use crate::protocol::{
    Command, CommandView, Event, EventView, debug_strings, events_view,
    format_debug_strings, strings_view,
};
use crate::text::str_eq;

verus! {

/// The lifecycle of the engine.
#[derive(Clone, Copy, PartialEq, Eq, Structural, Debug)]
pub enum EngineState {
    Idle,
    Running,
    ShuttingDown,
}

/// Outside work a command asks for; the engine is told how it went where that matters.
pub enum EngineAction {
    Nothing,
    /// Start these pipelines, then report with `finish_start`.
    StartPipelines { pipelines: Vec<String> },
    /// Stop the running pipelines and wait for them.
    StopPipelines,
    /// Enumerate audio devices, then report with `finish_list_devices`.
    ListDevices,
    /// Synthesize and play a voice sample (see `preview_request`), then report with `finish_preview`.
    TtsPreview { lang: String, voice: String },
    /// Publish the outgoing mute flag to the running pipeline.
    StoreMuteOutgoing(bool),
    /// Publish the incoming mute flag to the running pipeline.
    StoreMuteIncoming(bool),
}

/// An action with its strings taken by their views.
pub enum ActionView {
    Nothing,
    StartPipelines { pipelines: Seq<Seq<char>> },
    StopPipelines,
    ListDevices,
    TtsPreview { lang: Seq<char>, voice: Seq<char> },
    StoreMuteOutgoing(bool),
    StoreMuteIncoming(bool),
}

impl View for EngineAction {
    type V = ActionView;

    open spec fn view(&self) -> ActionView {
        match self {
            EngineAction::Nothing => ActionView::Nothing,
            EngineAction::StartPipelines { pipelines } => ActionView::StartPipelines {
                pipelines: strings_view(pipelines@),
            },
            EngineAction::StopPipelines => ActionView::StopPipelines,
            EngineAction::ListDevices => ActionView::ListDevices,
            EngineAction::TtsPreview { lang, voice } => ActionView::TtsPreview { lang: lang@, voice: voice@ },
            EngineAction::StoreMuteOutgoing(b) => ActionView::StoreMuteOutgoing(*b),
            EngineAction::StoreMuteIncoming(b) => ActionView::StoreMuteIncoming(*b),
        }
    }
}

/// The events a command produces at once, and the outside work it asks for.
pub struct Step {
    pub events: Vec<Event>,
    pub action: EngineAction,
}

/// The part of the engine that commands change.
pub struct EngineView {
    pub state: EngineState,
    pub endpointing_ms: u32,
    pub mute_outgoing: bool,
    pub mute_incoming: bool,
}

/// The engine state after a command.
pub open spec fn command_state(v: EngineView, cmd: CommandView) -> EngineView {
    match cmd {
        CommandView::Stop => EngineView { state: EngineState::Idle, ..v },
        CommandView::Shutdown => EngineView { state: EngineState::ShuttingDown, ..v },
        CommandView::SetConfig { key, value } => config_state(v, key, value.as_u64, value.as_bool),
        _ => v,
    }
}

/// The engine state after a setting is applied: `endpointing_ms` takes an
/// unsigned integer cut to 32 bits; the mute flags take a boolean, false
/// for anything else; other keys change nothing.
pub open spec fn config_state(v: EngineView, key: Seq<char>, as_u64: Option<u64>, as_bool: Option<bool>) -> EngineView {
    if key == "endpointing_ms"@ {
        match as_u64 {
            Some(n) => EngineView { endpointing_ms: n as u32, ..v },
            None => v,
        }
    } else if key == "mute_outgoing"@ {
        EngineView { mute_outgoing: as_bool == Some(true), ..v }
    } else if key == "mute_incoming"@ {
        EngineView { mute_incoming: as_bool == Some(true), ..v }
    } else {
        v
    }
}

/// The events a command produces at once.
pub open spec fn command_events(v: EngineView, cmd: CommandView) -> Seq<EventView> {
    match cmd {
        CommandView::Ping => seq![EventView::Pong],
        CommandView::Start { .. } => if v.state == EngineState::Running {
            seq![EventView::Error { message: "Pipelines already running. Stop first."@ }]
        } else {
            Seq::empty()
        },
        CommandView::Stop => seq![
            EventView::Log { level: "info"@, message: "Pipelines stopped"@ },
            EventView::Stopped,
        ],
        CommandView::SetConfig { key, value } => seq![
            EventView::Log { level: "info"@, message: "Config set: "@ + key + " = "@ + value.text },
        ],
        CommandView::ListDevices => Seq::empty(),
        CommandView::TtsPreview { .. } => Seq::empty(),
        CommandView::Shutdown => if v.state == EngineState::Running {
            seq![EventView::Stopped]
        } else {
            Seq::empty()
        },
    }
}

/// The engine state after starting pipelines succeeded (`ok`) or failed.
pub open spec fn start_done_state(v: EngineView, ok: bool) -> EngineView {
    if ok { EngineView { state: EngineState::Running, ..v } } else { v }
}

/// What the engine is told, in order: a command, or how starting pipelines went.
pub enum EngineInput {
    Cmd(CommandView),
    StartDone(bool),
}

/// The engine state after one input.
pub open spec fn input_state(v: EngineView, i: EngineInput) -> EngineView {
    match i {
        EngineInput::Cmd(c) => command_state(v, c),
        EngineInput::StartDone(ok) => start_done_state(v, ok),
    }
}

/// The engine state after a sequence of inputs.
pub open spec fn run_state(v: EngineView, inputs: Seq<EngineInput>) -> EngineView
    decreases inputs.len(),
{
    if inputs.len() == 0 {
        v
    } else {
        input_state(run_state(v, inputs.drop_last()), inputs.last())
    }
}

/// The inputs that decide the lifecycle state.
pub enum Lifecycle {
    Started,
    Stopped,
    ShutDown,
}

/// The last input of a sequence that decides the lifecycle state, if any:
/// pipelines started, a stop, or a shutdown.
pub open spec fn last_lifecycle(inputs: Seq<EngineInput>) -> Option<Lifecycle>
    decreases inputs.len(),
{
    if inputs.len() == 0 {
        None
    } else {
        match inputs.last() {
            EngineInput::StartDone(true) => Some(Lifecycle::Started),
            EngineInput::Cmd(CommandView::Stop) => Some(Lifecycle::Stopped),
            EngineInput::Cmd(CommandView::Shutdown) => Some(Lifecycle::ShutDown),
            _ => last_lifecycle(inputs.drop_last()),
        }
    }
}

/// The outside work a command asks for.
pub open spec fn command_action(v: EngineView, cmd: CommandView) -> ActionView {
    match cmd {
        CommandView::Ping => ActionView::Nothing,
        CommandView::Start { pipelines } => if v.state == EngineState::Running {
            ActionView::Nothing
        } else {
            ActionView::StartPipelines { pipelines }
        },
        CommandView::Stop => ActionView::StopPipelines,
        CommandView::SetConfig { key, value } => if key == "mute_outgoing"@ {
            ActionView::StoreMuteOutgoing(value.as_bool == Some(true))
        } else if key == "mute_incoming"@ {
            ActionView::StoreMuteIncoming(value.as_bool == Some(true))
        } else {
            ActionView::Nothing
        },
        CommandView::ListDevices => ActionView::ListDevices,
        CommandView::TtsPreview { lang, voice } => ActionView::TtsPreview { lang, voice },
        CommandView::Shutdown => if v.state == EngineState::Running {
            ActionView::StopPipelines
        } else {
            ActionView::Nothing
        },
    }
}

/// The engine coordinator: its lifecycle state, configuration and mute flags.
pub struct Engine {
    state: EngineState,
    config: EngineConfig,
    mute_outgoing: bool,
    mute_incoming: bool,
}

impl View for Engine {
    type V = EngineView;

    closed spec fn view(&self) -> EngineView {
        EngineView {
            state: self.state,
            endpointing_ms: self.config.endpointing_ms,
            mute_outgoing: self.mute_outgoing,
            mute_incoming: self.mute_incoming,
        }
    }
}

fn log_info(message: String) -> (e: Event)
    ensures
        e@ == (EventView::Log { level: "info"@, message: message@ }),
{
    Event::Log { level: "info".to_string(), message }
}

impl Engine {
    /// The configuration apart from what commands change.
    pub closed spec fn spec_config(&self) -> EngineConfig {
        self.config
    }

    /// An idle engine, unmuted, with the given configuration.
    pub fn new(config: EngineConfig) -> (e: Self)
        ensures
            e@ == (EngineView {
                state: EngineState::Idle,
                endpointing_ms: config.endpointing_ms,
                mute_outgoing: false,
                mute_incoming: false,
            }),
            e.spec_config() == config,
    {
        Engine { state: EngineState::Idle, config, mute_outgoing: false, mute_incoming: false }
    }

    /// The configuration.
    pub fn config(&self) -> (c: &EngineConfig)
        ensures
            c == self.spec_config(),
            c.endpointing_ms == self@.endpointing_ms,
    {
        &self.config
    }

    /// Whether a shutdown was requested.
    pub fn is_shutting_down(&self) -> (b: bool)
        ensures
            b == (self@.state == EngineState::ShuttingDown),
    {
        self.state == EngineState::ShuttingDown
    }

    /// The lifecycle state.
    pub fn state(&self) -> (s: EngineState)
        ensures
            s == self@.state,
    {
        self.state
    }

    /// Handles a command: updates the state and says what to emit and what
    /// outside work to do.
    pub fn handle_command(&mut self, cmd: Command) -> (step: Step)
        ensures
            final(self)@ == command_state(old(self)@, cmd@),
            events_view(step.events@) == command_events(old(self)@, cmd@),
            step.action@ == command_action(old(self)@, cmd@),
            final(self).spec_config() == (EngineConfig { endpointing_ms: final(self)@.endpointing_ms, ..old(self).spec_config() }),
    {
        let ghost old_view = self@;
        let ghost cv = cmd@;
        match cmd {
            Command::Ping => {
                let events = vec![Event::Pong];
                proof {
                    assert(events_view(events@) =~= seq![EventView::Pong]);
                }
                Step { events, action: EngineAction::Nothing }
            },
            Command::Start { pipelines } => {
                if self.state == EngineState::Running {
                    let events = vec![
                        Event::Error { message: "Pipelines already running. Stop first.".to_string() },
                    ];
                    proof {
                        assert(events_view(events@) =~= command_events(old_view, cv));
                    }
                    return Step { events, action: EngineAction::Nothing };
                }
                let events: Vec<Event> = Vec::new();
                proof {
                    assert(events_view(events@) =~= Seq::<EventView>::empty());
                }
                Step { events, action: EngineAction::StartPipelines { pipelines } }
            },
            Command::Stop => {
                self.state = EngineState::Idle;
                let events = vec![log_info("Pipelines stopped".to_string()), Event::Stopped];
                proof {
                    assert(events_view(events@) =~= command_events(old_view, cv));
                }
                Step { events, action: EngineAction::StopPipelines }
            },
            Command::SetConfig { key, value } => {
                let action = self.apply_config(key.as_str(), value.as_u64, value.as_bool);
                let mut m = "Config set: ".to_string();
                m.append(key.as_str());
                m.append(" = ");
                m.append(value.text.as_str());
                let events = vec![log_info(m)];
                proof {
                    assert(events_view(events@) =~= command_events(old_view, cv));
                }
                Step { events, action }
            },
            Command::ListDevices => {
                let events: Vec<Event> = Vec::new();
                proof {
                    assert(events_view(events@) =~= Seq::<EventView>::empty());
                }
                Step { events, action: EngineAction::ListDevices }
            },
            Command::TtsPreview { lang, voice } => {
                let events: Vec<Event> = Vec::new();
                proof {
                    assert(events_view(events@) =~= Seq::<EventView>::empty());
                }
                Step { events, action: EngineAction::TtsPreview { lang, voice } }
            },
            Command::Shutdown => {
                let running = self.state == EngineState::Running;
                self.state = EngineState::ShuttingDown;
                if running {
                    let events = vec![Event::Stopped];
                    proof {
                        assert(events_view(events@) =~= command_events(old_view, cv));
                    }
                    Step { events, action: EngineAction::StopPipelines }
                } else {
                    let events: Vec<Event> = Vec::new();
                    proof {
                        assert(events_view(events@) =~= command_events(old_view, cv));
                    }
                    Step { events, action: EngineAction::Nothing }
                }
            },
        }
    }

    /// Applies a setting; returns the mute flag to publish, if the key is one.
    fn apply_config(&mut self, key: &str, as_u64: Option<u64>, as_bool: Option<bool>) -> (a: EngineAction)
        ensures
            final(self)@ == config_state(old(self)@, key@, as_u64, as_bool),
            final(self).spec_config() == (EngineConfig { endpointing_ms: final(self)@.endpointing_ms, ..old(self).spec_config() }),
            a@ == (if key@ == "mute_outgoing"@ {
                ActionView::StoreMuteOutgoing(as_bool == Some(true))
            } else if key@ == "mute_incoming"@ {
                ActionView::StoreMuteIncoming(as_bool == Some(true))
            } else {
                ActionView::Nothing
            }),
    {
        proof {
            reveal_strlit("endpointing_ms");
            reveal_strlit("mute_outgoing");
            reveal_strlit("mute_incoming");
            assert("endpointing_ms"@.len() != "mute_outgoing"@.len());
            assert("endpointing_ms"@.len() != "mute_incoming"@.len());
            assert("mute_incoming"@[5] != "mute_outgoing"@[5]);
        }
        if str_eq(key, "endpointing_ms") {
            if let Some(v) = as_u64 {
                self.config.endpointing_ms = #[verifier::truncate] (v as u32);
            }
            EngineAction::Nothing
        } else if str_eq(key, "mute_outgoing") {
            let muted = match as_bool {
                Some(b) => b,
                None => false,
            };
            self.mute_outgoing = muted;
            EngineAction::StoreMuteOutgoing(muted)
        } else if str_eq(key, "mute_incoming") {
            let muted = match as_bool {
                Some(b) => b,
                None => false,
            };
            self.mute_incoming = muted;
            EngineAction::StoreMuteIncoming(muted)
        } else {
            EngineAction::Nothing
        }
    }
}

} // verus!

verus! {

/// The sample sentence a voice preview speaks for a language code.
pub open spec fn preview_text_spec(lang: Seq<char>) -> Seq<char> {
    if lang == "ru"@ {
        "Привет, это тест голоса для перевода."@
    } else if lang == "de"@ {
        "Hallo, dies ist ein Stimmtest."@
    } else if lang == "fr"@ {
        "Bonjour, ceci est un test de voix."@
    } else if lang == "es"@ {
        "Hola, esta es una prueba de voz."@
    } else if lang == "it"@ {
        "Ciao, questo è un test vocale."@
    } else if lang == "pt"@ {
        "Olá, este é um teste de voz."@
    } else if lang == "zh"@ {
        "你好，这是语音测试。"@
    } else if lang == "ar"@ {
        "مرحبا، هذا اختبار صوتي."@
    } else if lang == "hi"@ {
        "नमस्ते, यह एक आवाज़ परीक्षण है।"@
    } else if lang == "tr"@ {
        "Merhaba, bu bir ses testidir."@
    } else if lang == "nl"@ {
        "Hallo, dit is een stemtest."@
    } else if lang == "pl"@ {
        "Cześć, to jest test głosu."@
    } else if lang == "uk"@ {
        "Привіт, це тест голосу."@
    } else {
        "Hello, this is a voice preview test."@
    }
}

/// The sample sentence a voice preview speaks for a language code.
pub fn preview_text(lang: &str) -> (t: &'static str)
    ensures
        t@ == preview_text_spec(lang@),
{
    if str_eq(lang, "ru") {
        "Привет, это тест голоса для перевода."
    } else if str_eq(lang, "de") {
        "Hallo, dies ist ein Stimmtest."
    } else if str_eq(lang, "fr") {
        "Bonjour, ceci est un test de voix."
    } else if str_eq(lang, "es") {
        "Hola, esta es una prueba de voz."
    } else if str_eq(lang, "it") {
        "Ciao, questo è un test vocale."
    } else if str_eq(lang, "pt") {
        "Olá, este é um teste de voz."
    } else if str_eq(lang, "zh") {
        "你好，这是语音测试。"
    } else if str_eq(lang, "ar") {
        "مرحبا، هذا اختبار صوتي."
    } else if str_eq(lang, "hi") {
        "नमस्ते, यह एक आवाज़ परीक्षण है।"
    } else if str_eq(lang, "tr") {
        "Merhaba, bu bir ses testidir."
    } else if str_eq(lang, "nl") {
        "Hallo, dit is een stemtest."
    } else if str_eq(lang, "pl") {
        "Cześć, to jest test głosu."
    } else if str_eq(lang, "uk") {
        "Привіт, це тест голосу."
    } else {
        "Hello, this is a voice preview test."
    }
}

/// What a voice preview needs: the model and its configuration, the text,
/// and where and at what rate to play it.
pub struct PreviewRequest {
    pub model_path: String,
    pub config_path: String,
    pub text: String,
    pub sample_rate: u32,
    pub speaker_device: String,
}

/// How a voice preview went.
pub enum PreviewOutcome {
    /// The voice could not be loaded.
    LoadFailed(String),
    /// The text could not be synthesized.
    SynthesisFailed(String),
    /// The audio could not be played.
    PlaybackFailed(String),
    /// The sample was played.
    Played,
}

/// The path of a preview voice file: `<models>/piper-<lang>/<voice><ext>`.
pub open spec fn voice_path(models: Seq<char>, lang: Seq<char>, voice: Seq<char>, ext: Seq<char>) -> Seq<char> {
    models + "/piper-"@ + lang + "/"@ + voice + ext
}

fn build_voice_path(models: &str, lang: &str, voice: &str, ext: &str) -> (p: String)
    ensures
        p@ == voice_path(models@, lang@, voice@, ext@),
{
    let mut p = models.to_string();
    p.append("/piper-");
    p.append(lang);
    p.append("/");
    p.append(voice);
    p.append(ext);
    p
}

impl Engine {
    /// Reports how starting pipelines went: on success the engine runs and
    /// says so; on failure it reports the error and keeps its state.
    pub fn finish_start(&mut self, pipelines: Vec<String>, result: Result<(), String>) -> (events: Vec<Event>)
        ensures
            final(self)@ == start_done_state(old(self)@, result is Ok),
            final(self).spec_config() == old(self).spec_config(),
            result is Ok ==> events_view(events@) == seq![
                EventView::Log {
                    level: "info"@,
                    message: "Starting pipelines: "@ + debug_strings(strings_view(pipelines@)),
                },
                EventView::Started { pipelines: strings_view(pipelines@) },
            ],
            result matches Err(e) ==> events_view(events@) == seq![
                EventView::Error { message: "Failed to start pipelines: "@ + e@ },
            ],
    {
        match result {
            Ok(()) => {
                self.state = EngineState::Running;
                let mut m = "Starting pipelines: ".to_string();
                let listed = format_debug_strings(&pipelines);
                m.append(listed.as_str());
                let events = vec![log_info(m), Event::Started { pipelines }];
                proof {
                    assert(events_view(events@) =~= seq![
                        EventView::Log {
                            level: "info"@,
                            message: "Starting pipelines: "@ + debug_strings(strings_view(pipelines@)),
                        },
                        EventView::Started { pipelines: strings_view(pipelines@) },
                    ]);
                }
                events
            },
            Err(e) => {
                let mut m = "Failed to start pipelines: ".to_string();
                m.append(e.as_str());
                let events = vec![Event::Error { message: m }];
                proof {
                    assert(events_view(events@) =~= seq![
                        EventView::Error { message: "Failed to start pipelines: "@ + e@ },
                    ]);
                }
                events
            },
        }
    }

    /// Reports the audio devices found, or why they could not be listed.
    pub fn finish_list_devices(&self, result: Result<(Vec<String>, Vec<String>), String>) -> (events: Vec<Event>)
        ensures
            result matches Ok((i, o)) ==> events_view(events@) == seq![
                EventView::DeviceList { input: strings_view(i@), output: strings_view(o@) },
            ],
            result matches Err(e) ==> events_view(events@) == seq![
                EventView::Error { message: "Failed to list devices: "@ + e@ },
            ],
    {
        match result {
            Ok((input, output)) => {
                let ghost iv = strings_view(input@);
                let ghost ov = strings_view(output@);
                let events = vec![Event::DeviceList { input, output }];
                proof {
                    assert(events_view(events@) =~= seq![EventView::DeviceList { input: iv, output: ov }]);
                }
                events
            },
            Err(e) => {
                let mut m = "Failed to list devices: ".to_string();
                m.append(e.as_str());
                let events = vec![Event::Error { message: m }];
                proof {
                    assert(events_view(events@) =~= seq![
                        EventView::Error { message: "Failed to list devices: "@ + e@ },
                    ]);
                }
                events
            },
        }
    }

    /// What a voice preview of `voice` in `lang` uses: the voice files under
    /// the models directory (`./models` unless `models_dir` is given), the
    /// language's sample sentence, and the speaker device at the configured rate.
    pub fn preview_request(&self, models_dir: Option<String>, lang: &str, voice: &str) -> (r: PreviewRequest)
        ensures
            r.model_path@ == voice_path(
                crate::config::or_default(models_dir, "./models"@),
                lang@,
                voice@,
                ".onnx"@,
            ),
            r.config_path@ == voice_path(
                crate::config::or_default(models_dir, "./models"@),
                lang@,
                voice@,
                ".onnx.json"@,
            ),
            r.text@ == preview_text_spec(lang@),
            r.sample_rate == self.spec_config().sample_rate,
            r.speaker_device@ == self.spec_config().speaker_device@,
    {
        let base = match models_dir {
            Some(d) => d,
            None => "./models".to_string(),
        };
        PreviewRequest {
            model_path: build_voice_path(base.as_str(), lang, voice, ".onnx"),
            config_path: build_voice_path(base.as_str(), lang, voice, ".onnx.json"),
            text: preview_text(lang).to_string(),
            sample_rate: self.config.sample_rate,
            speaker_device: self.config.speaker_device.clone(),
        }
    }

    /// Reports how a voice preview went.
    pub fn finish_preview(&self, outcome: PreviewOutcome) -> (events: Vec<Event>)
        ensures
            outcome is Played ==> events_view(events@) == seq![EventView::TtsPreviewDone],
            outcome matches PreviewOutcome::LoadFailed(e) ==> events_view(events@) == seq![
                EventView::Error { message: "Preview TTS load failed: "@ + e@ },
            ],
            outcome matches PreviewOutcome::SynthesisFailed(e) ==> events_view(events@) == seq![
                EventView::Error { message: "Preview synthesis failed: "@ + e@ },
            ],
            outcome matches PreviewOutcome::PlaybackFailed(e) ==> events_view(events@) == seq![
                EventView::Error { message: "Preview playback failed: "@ + e@ },
            ],
    {
        let (prefix, e) = match outcome {
            PreviewOutcome::Played => {
                let events = vec![Event::TtsPreviewDone];
                proof {
                    assert(events_view(events@) =~= seq![EventView::TtsPreviewDone]);
                }
                return events;
            },
            PreviewOutcome::LoadFailed(e) => ("Preview TTS load failed: ", e),
            PreviewOutcome::SynthesisFailed(e) => ("Preview synthesis failed: ", e),
            PreviewOutcome::PlaybackFailed(e) => ("Preview playback failed: ", e),
        };
        let mut m = prefix.to_string();
        m.append(e.as_str());
        let events = vec![Event::Error { message: m }];
        proof {
            assert(events_view(events@) =~= seq![EventView::Error { message: prefix@ + e@ }]);
        }
        events
    }
}

} // verus!

verus! {

/// Each sample repeated `channels` times in a row, turning mono audio into
/// interleaved frames; with one channel or none, the samples unchanged.
pub fn expand_channels<T: Copy>(samples: &Vec<T>, channels: u16) -> (out: Vec<T>)
    requires
        samples@.len() * channels <= usize::MAX,
    ensures
        channels <= 1 ==> out@ == samples@,
        channels > 1 ==> out@.len() == samples@.len() * channels,
        channels > 1 ==> forall|k: int| 0 <= k < out@.len() ==> #[trigger] out@[k] == samples@[k / channels as int],
{
    let mut out: Vec<T> = Vec::new();
    if channels <= 1 {
        let mut i: usize = 0;
        while i < samples.len()
            invariant
                i <= samples.len(),
                out@ == samples@.take(i as int),
            decreases samples.len() - i,
        {
            out.push(samples[i]);
            assert(samples@.take(i + 1) == samples@.take(i as int).push(samples@[i as int]));
            i += 1;
        }
        assert(samples@.take(samples@.len() as int) == samples@);
        return out;
    }
    let ch = channels as usize;
    let mut i: usize = 0;
    while i < samples.len()
        invariant
            ch == channels,
            ch > 1,
            i <= samples.len(),
            samples@.len() * ch <= usize::MAX,
            out@.len() == i * ch,
            forall|k: int| 0 <= k < out@.len() ==> #[trigger] out@[k] == samples@[k / ch as int],
        decreases samples.len() - i,
    {
        let s = samples[i];
        let mut j: usize = 0;
        while j < ch
            invariant
                ch == channels,
                ch > 1,
                i < samples.len(),
                j <= ch,
                s == samples@[i as int],
                samples@.len() * ch <= usize::MAX,
                out@.len() == i * ch + j,
                forall|k: int| 0 <= k < out@.len() ==> #[trigger] out@[k] == samples@[k / ch as int],
            decreases ch - j,
        {
            proof {
                assert((i * ch + j) / (ch as int) == i as int) by (nonlinear_arith)
                    requires j < ch, ch > 0;
                assert(i * ch + j + 1 <= samples@.len() * ch) by (nonlinear_arith)
                    requires j < ch, i < samples@.len();
            }
            out.push(s);
            j += 1;
        }
        proof {
            assert((i + 1) * ch == i * ch + ch) by (nonlinear_arith);
        }
        i += 1;
    }
    out
}

/// The two directions a pipeline can run in. The outgoing one obeys the
/// outgoing mute flag, listens to the outgoing echo-suppression flag and
/// raises the incoming one; the incoming one the other way round.
#[derive(Clone, Copy, PartialEq, Eq, Structural, Debug)]
pub enum PipelineKind {
    /// The user's speech, translated for the call.
    Outgoing,
    /// The call's speech, translated for the user.
    Incoming,
}

/// Everything a pipeline needs to run.
pub struct PipelineSpec {
    pub kind: PipelineKind,
    pub direction: String,
    pub capture_device: String,
    pub playback_device: String,
    pub sample_rate: u32,
    pub stt: crate::stt::DeepgramStt,
    pub translate_direction: crate::translation::TranslationDirection,
    pub source_lang: String,
    pub tts_config: String,
    pub tts_model: String,
    pub use_loopback: bool,
    pub stt_provider: String,
    pub yandex_key: String,
    pub yandex_folder_id: String,
    pub stt_language: String,
    pub whisper_model: String,
}

/// The pipelines a list of names asks for, in order; unknown names are skipped.
pub open spec fn planned_kinds(names: Seq<Seq<char>>) -> Seq<PipelineKind>
    decreases names.len(),
{
    if names.len() == 0 {
        Seq::empty()
    } else {
        let rest = planned_kinds(names.drop_last());
        if names.last() == "outgoing"@ {
            rest.push(PipelineKind::Outgoing)
        } else if names.last() == "incoming"@ {
            rest.push(PipelineKind::Incoming)
        } else {
            rest
        }
    }
}

/// Where the outgoing pipeline plays: the call's output device when one is
/// set, else the speakers.
pub open spec fn outgoing_playback(c: EngineConfig) -> Seq<char> {
    if c.meet_output_device@.len() == 0 || c.meet_output_device@ == "default"@ {
        c.speaker_device@
    } else {
        c.meet_output_device@
    }
}

/// Whether `p` is the pipeline of kind `k` that configuration `c` describes.
pub open spec fn pipeline_matches(c: EngineConfig, p: PipelineSpec, k: PipelineKind) -> bool {
    let (mine, theirs) = match k {
        PipelineKind::Outgoing => (c.my_language@, c.their_language@),
        PipelineKind::Incoming => (c.their_language@, c.my_language@),
    };
    &&& p.kind == k
    &&& p.direction@ == match k {
        PipelineKind::Outgoing => "outgoing"@,
        PipelineKind::Incoming => "incoming"@,
    }
    &&& p.capture_device@ == match k {
        PipelineKind::Outgoing => c.mic_device@,
        PipelineKind::Incoming => c.meet_input_device@,
    }
    &&& p.playback_device@ == match k {
        PipelineKind::Outgoing => outgoing_playback(c),
        PipelineKind::Incoming => c.speaker_device@,
    }
    &&& p.sample_rate == c.sample_rate
    &&& p.stt@.api_key == c.deepgram_api_key@
    &&& p.stt@.language == crate::stt::deepgram_language(mine)
    &&& p.stt@.endpointing_ms == c.endpointing_ms
    &&& p.translate_direction.from_code@ == mine
    &&& p.translate_direction.to_code@ == theirs
    &&& p.translate_direction.from_name@ == crate::translation::lang_name_spec(mine)
    &&& p.translate_direction.to_name@ == crate::translation::lang_name_spec(theirs)
    &&& p.source_lang@ == mine
    &&& p.tts_config@ == match k {
        PipelineKind::Outgoing => c.tts_en_config@,
        PipelineKind::Incoming => c.tts_ru_config@,
    }
    &&& p.tts_model@ == match k {
        PipelineKind::Outgoing => c.tts_en_model@,
        PipelineKind::Incoming => c.tts_ru_model@,
    }
    &&& !p.use_loopback
    &&& p.stt_provider@ == c.stt_provider@
    &&& p.yandex_key@ == c.yandex_api_key@
    &&& p.yandex_folder_id@ == c.yandex_folder_id@
    &&& p.stt_language@ == mine
    &&& p.whisper_model@ == c.whisper_model@
}

fn make_pipeline(c: &EngineConfig, k: PipelineKind) -> (p: PipelineSpec)
    ensures
        pipeline_matches(*c, p, k),
{
    let (mine, theirs) = match k {
        PipelineKind::Outgoing => (c.my_language.as_str(), c.their_language.as_str()),
        PipelineKind::Incoming => (c.their_language.as_str(), c.my_language.as_str()),
    };
    let (direction, capture, playback, tts_config, tts_model) = match k {
        PipelineKind::Outgoing => {
            let md = c.meet_output_device.as_str();
            let playback = if md.unicode_len() == 0 || str_eq(md, "default") {
                c.speaker_device.clone()
            } else {
                c.meet_output_device.clone()
            };
            ("outgoing", c.mic_device.clone(), playback, c.tts_en_config.clone(), c.tts_en_model.clone())
        },
        PipelineKind::Incoming => (
            "incoming",
            c.meet_input_device.clone(),
            c.speaker_device.clone(),
            c.tts_ru_config.clone(),
            c.tts_ru_model.clone(),
        ),
    };
    PipelineSpec {
        kind: k,
        direction: direction.to_string(),
        capture_device: capture,
        playback_device: playback,
        sample_rate: c.sample_rate,
        stt: crate::stt::DeepgramStt::new(c.deepgram_api_key.clone(), mine.to_string(), c.endpointing_ms),
        translate_direction: crate::translation::TranslationDirection::new(mine, theirs),
        source_lang: mine.to_string(),
        tts_config,
        tts_model,
        use_loopback: false,
        stt_provider: c.stt_provider.clone(),
        yandex_key: c.yandex_api_key.clone(),
        yandex_folder_id: c.yandex_folder_id.clone(),
        stt_language: mine.to_string(),
        whisper_model: c.whisper_model.clone(),
    }
}

impl Engine {
    /// The pipelines to start for the requested names, in order, each with
    /// its devices, languages, voice and speech-to-text settings; unknown
    /// names are skipped.
    pub fn plan_pipelines(&self, names: &Vec<String>) -> (plans: Vec<PipelineSpec>)
        ensures
            plans@.len() == planned_kinds(strings_view(names@)).len(),
            forall|i: int| 0 <= i < plans@.len() ==> pipeline_matches(
                self.spec_config(),
                #[trigger] plans@[i],
                planned_kinds(strings_view(names@))[i],
            ),
    {
        let mut plans: Vec<PipelineSpec> = Vec::new();
        let mut i: usize = 0;
        while i < names.len()
            invariant
                i <= names.len(),
                plans@.len() == planned_kinds(strings_view(names@).take(i as int)).len(),
                forall|j: int| 0 <= j < plans@.len() ==> pipeline_matches(
                    self.spec_config(),
                    #[trigger] plans@[j],
                    planned_kinds(strings_view(names@).take(i as int))[j],
                ),
            decreases names.len() - i,
        {
            let ghost pre = strings_view(names@).take(i + 1);
            proof {
                assert(pre.drop_last() == strings_view(names@).take(i as int));
                assert(pre.last() == names@[i as int]@);
            }
            let name = names[i].as_str();
            if str_eq(name, "outgoing") {
                plans.push(make_pipeline(&self.config, PipelineKind::Outgoing));
            } else if str_eq(name, "incoming") {
                plans.push(make_pipeline(&self.config, PipelineKind::Incoming));
            }
            i += 1;
        }
        assert(strings_view(names@).take(names@.len() as int) == strings_view(names@));
        plans
    }

    /// The translation settings the pipelines share.
    pub fn translation_settings(&self) -> (t: crate::translation::TranslationEngine)
        ensures
            t@.groq_key == self.spec_config().groq_api_key@,
            t@.yandex_key == self.spec_config().yandex_api_key@,
            t@.yandex_folder_id == self.spec_config().yandex_folder_id@,
            t@.provider == self.spec_config().translation_provider@,
            t@.litellm_base_url == self.spec_config().litellm_base_url@,
            t@.litellm_api_key == self.spec_config().litellm_api_key@,
            t@.litellm_model == self.spec_config().litellm_model@,
            t@.mt_ruen_path == self.spec_config().local_mt_ruen@,
            t@.mt_enru_path == self.spec_config().local_mt_enru@,
    {
        let c = &self.config;
        crate::translation::TranslationEngine::new(
            c.groq_api_key.as_str(),
            c.yandex_api_key.as_str(),
            c.yandex_folder_id.as_str(),
            c.translation_provider.as_str(),
            c.litellm_base_url.as_str(),
            c.litellm_api_key.as_str(),
            c.litellm_model.as_str(),
            c.local_mt_ruen.as_str(),
            c.local_mt_enru.as_str(),
        )
    }
}

} // verus!

verus! {

/// A start request while pipelines run is refused with an error, and
/// changes nothing.
pub proof fn law_start_refused_while_running(v: EngineView, pipelines: Seq<Seq<char>>)
    requires
        v.state == EngineState::Running,
    ensures
        command_state(v, CommandView::Start { pipelines }) == v,
        command_events(v, CommandView::Start { pipelines }) == seq![
            EventView::Error { message: "Pipelines already running. Stop first."@ },
        ],
        command_action(v, CommandView::Start { pipelines }) == ActionView::Nothing,
{
}

/// A start request when no pipelines run asks for exactly those pipelines
/// and emits nothing until they have started.
pub proof fn law_start_when_idle(v: EngineView, pipelines: Seq<Seq<char>>)
    requires
        v.state != EngineState::Running,
    ensures
        command_state(v, CommandView::Start { pipelines }) == v,
        command_events(v, CommandView::Start { pipelines }).len() == 0,
        command_action(v, CommandView::Start { pipelines }) == (ActionView::StartPipelines { pipelines }),
{
}

/// Stopping always leaves the engine idle, stops the pipelines, and says so.
pub proof fn law_stop_idles(v: EngineView)
    ensures
        command_state(v, CommandView::Stop).state == EngineState::Idle,
        command_action(v, CommandView::Stop) == ActionView::StopPipelines,
        command_events(v, CommandView::Stop).last() == EventView::Stopped,
{
}

/// Shutting down always ends in the shutting-down state; it stops pipelines,
/// and reports them stopped, exactly when they were running.
pub proof fn law_shutdown(v: EngineView)
    ensures
        command_state(v, CommandView::Shutdown).state == EngineState::ShuttingDown,
        (command_action(v, CommandView::Shutdown) == ActionView::StopPipelines) == (v.state == EngineState::Running),
        (command_events(v, CommandView::Shutdown) == seq![EventView::Stopped]) == (v.state == EngineState::Running),
        v.state != EngineState::Running ==> command_events(v, CommandView::Shutdown).len() == 0,
{
    if v.state != EngineState::Running {
        assert(command_events(v, CommandView::Shutdown).len() == 0);
        assert(seq![EventView::Stopped].len() == 1);
    }
}

/// Over any sequence of inputs the engine runs exactly when the last of
/// {pipelines started, stop, shutdown} was a successful start, idles when it
/// was a stop and is shutting down when it was a shutdown; pings, settings,
/// device lists, previews and refused or failed starts never change the
/// lifecycle state.
pub proof fn law_lifecycle(v: EngineView, inputs: Seq<EngineInput>)
    ensures
        run_state(v, inputs).state == match last_lifecycle(inputs) {
            None => v.state,
            Some(Lifecycle::Started) => EngineState::Running,
            Some(Lifecycle::Stopped) => EngineState::Idle,
            Some(Lifecycle::ShutDown) => EngineState::ShuttingDown,
        },
    decreases inputs.len(),
{
    if inputs.len() > 0 {
        law_lifecycle(v, inputs.drop_last());
    }
}

/// A ping is answered with a pong and changes nothing.
pub proof fn law_ping(v: EngineView)
    ensures
        command_state(v, CommandView::Ping) == v,
        command_events(v, CommandView::Ping) == seq![EventView::Pong],
        command_action(v, CommandView::Ping) == ActionView::Nothing,
{
}

/// A mute setting that is not a boolean unmutes; the endpointing setting
/// takes the low 32 bits of an unsigned integer and ignores anything else.
pub proof fn law_config_values(v: EngineView, as_u64: Option<u64>, as_bool: Option<bool>)
    ensures
        as_bool is None ==> !config_state(v, "mute_outgoing"@, as_u64, as_bool).mute_outgoing,
        as_bool is None ==> !config_state(v, "mute_incoming"@, as_u64, as_bool).mute_incoming,
        as_u64 is None ==> config_state(v, "endpointing_ms"@, as_u64, as_bool) == v,
        as_u64 matches Some(n) ==> config_state(v, "endpointing_ms"@, as_u64, as_bool).endpointing_ms == n % 0x1_0000_0000,
{
    reveal_strlit("endpointing_ms");
    reveal_strlit("mute_outgoing");
    reveal_strlit("mute_incoming");
    assert("endpointing_ms"@.len() != "mute_outgoing"@.len());
    assert("endpointing_ms"@.len() != "mute_incoming"@.len());
    assert("mute_incoming"@[5] != "mute_outgoing"@[5]);
    if let Some(n) = as_u64 {
        assert(n as u32 == n % 0x1_0000_0000) by (bit_vector);
    }
}

} // verus!
