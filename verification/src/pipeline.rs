//! Decisions of a running translation pipeline: which speech-to-text service
//! to use, when and how to reconnect, and where recognised text goes.
use vstd::prelude::*;
use vstd::string::*;
use vstd::arithmetic::power2::pow2;

use crate::protocol::{Event, EventView};
use crate::text::{str_eq, push_decimal, decimal};

verus! {

/// Reconnect backoff never exceeds this many milliseconds.
pub const MAX_BACKOFF_MS: u64 = 30000;

/// After this many lost speech-to-text connections, automatic mode switches service.
pub const MAX_DEEPGRAM_DROPS: u32 = 3;

/// After this many consecutive failed reconnect rounds the pipeline stops.
pub const MAX_RECONNECT_ATTEMPTS: u32 = 5;

/// The rate, in Hz, at which audio is streamed to speech-to-text.
pub const STT_SAMPLE_RATE: u32 = 16000;

/// A speech-to-text service.
#[derive(Clone, Copy, PartialEq, Eq, Structural, Debug)]
pub enum SttKind {
    Deepgram,
    Yandex,
    Whisper,
}

/// The configured speech-to-text provider.
#[derive(Clone, Copy, PartialEq, Eq, Structural, Debug)]
pub enum SttProvider {
    Auto,
    Deepgram,
    Yandex,
    Whisper,
    Other,
}

/// How a provider setting is read.
pub open spec fn provider_of(s: Seq<char>) -> SttProvider {
    if s == "auto"@ {
        SttProvider::Auto
    } else if s == "deepgram"@ {
        SttProvider::Deepgram
    } else if s == "yandex"@ {
        SttProvider::Yandex
    } else if s == "whisper"@ {
        SttProvider::Whisper
    } else {
        SttProvider::Other
    }
}

impl SttProvider {
    /// Reads a provider setting ("auto", "deepgram", "yandex", "whisper").
    pub fn parse(s: &str) -> (p: SttProvider)
        ensures
            p == provider_of(s@),
    {
        if str_eq(s, "auto") {
            SttProvider::Auto
        } else if str_eq(s, "deepgram") {
            SttProvider::Deepgram
        } else if str_eq(s, "yandex") {
            SttProvider::Yandex
        } else if str_eq(s, "whisper") {
            SttProvider::Whisper
        } else {
            SttProvider::Other
        }
    }
}

/// The first speech-to-text service a pipeline opens, or `None` when the
/// configuration names none that can be used.
pub open spec fn spec_initial_session(provider: SttProvider, has_yandex_key: bool) -> Option<SttKind> {
    match provider {
        SttProvider::Yandex => if has_yandex_key { Some(SttKind::Yandex) } else { None },
        SttProvider::Whisper => Some(SttKind::Whisper),
        SttProvider::Deepgram => Some(SttKind::Deepgram),
        SttProvider::Auto => Some(SttKind::Deepgram),
        SttProvider::Other => None,
    }
}

/// The service opened instead when the first Deepgram session cannot be
/// opened, or `None` when the pipeline fails.
pub open spec fn spec_after_deepgram_failure(provider: SttProvider, has_yandex_key: bool) -> Option<SttKind> {
    if provider == SttProvider::Auto {
        if has_yandex_key { Some(SttKind::Yandex) } else { Some(SttKind::Whisper) }
    } else {
        None
    }
}

/// The first speech-to-text service a pipeline opens.
pub fn initial_session(provider: SttProvider, has_yandex_key: bool) -> (k: Option<SttKind>)
    ensures
        k == spec_initial_session(provider, has_yandex_key),
        provider == SttProvider::Whisper ==> k == Some(SttKind::Whisper),
        (provider == SttProvider::Deepgram || provider == SttProvider::Auto) ==> k == Some(SttKind::Deepgram),
        provider == SttProvider::Yandex ==> (k == if has_yandex_key { Some(SttKind::Yandex) } else { None::<SttKind> }),
        provider == SttProvider::Other ==> k is None,
{
    match provider {
        SttProvider::Yandex => if has_yandex_key { Some(SttKind::Yandex) } else { None },
        SttProvider::Whisper => Some(SttKind::Whisper),
        SttProvider::Deepgram => Some(SttKind::Deepgram),
        SttProvider::Auto => Some(SttKind::Deepgram),
        SttProvider::Other => None,
    }
}

/// The service to open when the first Deepgram session fails.
pub fn after_deepgram_failure(provider: SttProvider, has_yandex_key: bool) -> (k: Option<SttKind>)
    ensures
        k == spec_after_deepgram_failure(provider, has_yandex_key),
        provider == SttProvider::Auto && has_yandex_key ==> k == Some(SttKind::Yandex),
        provider == SttProvider::Auto && !has_yandex_key ==> k == Some(SttKind::Whisper),
        provider != SttProvider::Auto ==> k is None,
{
    if provider == SttProvider::Auto {
        if has_yandex_key { Some(SttKind::Yandex) } else { Some(SttKind::Whisper) }
    } else {
        None
    }
}

/// The message of a pipeline that has no usable provider.
pub open spec fn no_provider_text(direction: Seq<char>, provider: Seq<char>) -> Seq<char> {
    "["@ + direction + "] No valid STT provider configured (provider='"@ + provider + "')"@
}

/// The message of a pipeline whose speech-to-text session cannot be opened.
pub open spec fn session_failed_text(direction: Seq<char>, err: Seq<char>) -> Seq<char> {
    "["@ + direction + "] Failed to create STT session: "@ + err
}

/// Builds the message of a pipeline that has no usable provider.
pub fn no_provider_message(direction: &str, provider: &str) -> (m: String)
    ensures
        m@ == no_provider_text(direction@, provider@),
{
    let mut m = String::new();
    m.append("[");
    m.append(direction);
    m.append("] No valid STT provider configured (provider='");
    m.append(provider);
    m.append("')");
    m
}

/// Builds the message of a pipeline whose speech-to-text session cannot be opened.
pub fn session_failed_message(direction: &str, err: &str) -> (m: String)
    ensures
        m@ == session_failed_text(direction@, err@),
{
    let mut m = String::new();
    m.append("[");
    m.append(direction);
    m.append("] Failed to create STT session: ");
    m.append(err);
    m
}

/// The pause before reconnect attempt number `attempts` (counting from 1):
/// 2 s doubled for each earlier attempt, capped at 30 s.
pub open spec fn spec_backoff_ms(attempts: u32) -> u64 {
    let e: nat = if attempts == 0 { 0 } else if attempts - 1 > 16 { 16 } else { (attempts - 1) as nat };
    let raw: nat = 2000 * pow2(e);
    if raw < MAX_BACKOFF_MS { raw as u64 } else { MAX_BACKOFF_MS }
}

/// The pause before reconnect attempt number `attempts`.
pub fn backoff_ms(attempts: u32) -> (ms: u64)
    ensures
        ms == spec_backoff_ms(attempts),
{
    let e: u32 = if attempts == 0 { 0 } else if attempts - 1 > 16 { 16 } else { attempts - 1 };
    let mut p: u64 = 1;
    let mut i: u32 = 0;
    proof {
        vstd::arithmetic::power2::lemma2_to64();
    }
    while i < e
        invariant
            i <= e <= 16,
            p == pow2(i as nat),
        decreases e - i,
    {
        proof {
            vstd::arithmetic::power2::lemma2_to64();
            vstd::arithmetic::power2::lemma_pow2_unfold((i + 1) as nat);
            vstd::arithmetic::power2::lemma_pow2_strictly_increases(i as nat, 16);
        }
        p = p * 2;
        i += 1;
    }
    proof {
        vstd::arithmetic::power2::lemma2_to64();
        if e < 16 {
            vstd::arithmetic::power2::lemma_pow2_strictly_increases(e as nat, 16);
        }
    }
    let raw: u64 = 2000 * p;
    if raw < MAX_BACKOFF_MS { raw } else { MAX_BACKOFF_MS }
}

} // verus!

verus! {

/// The abstract state of a pipeline's speech-to-text supervision.
pub struct SupervisorView {
    pub provider: SttProvider,
    pub has_yandex_key: bool,
    pub current: SttKind,
    pub need_reconnect: bool,
    pub reconnect_attempts: u32,
    pub drop_count: u32,
    pub loop_count: u64,
}

/// What to do after one attempt to open a speech-to-text session.
#[derive(Clone, Copy, PartialEq, Eq, Structural, Debug)]
pub enum AttemptStep {
    /// Try to open this service next.
    TryNext(SttKind),
    /// Connected; carry on with the rest of this loop iteration.
    Resume,
    /// Go back to the top of the loop.
    Restart,
}

/// Whether the supervisor has given up on Deepgram and moves to other services.
pub open spec fn fallback_mode(v: SupervisorView) -> bool {
    v.drop_count >= MAX_DEEPGRAM_DROPS && v.provider == SttProvider::Auto
}

/// The first service tried in a reconnect round.
pub open spec fn first_candidate(v: SupervisorView) -> SttKind {
    if fallback_mode(v) && v.has_yandex_key && v.current != SttKind::Yandex {
        SttKind::Yandex
    } else if fallback_mode(v) && v.current != SttKind::Whisper {
        SttKind::Whisper
    } else {
        SttKind::Deepgram
    }
}

/// Whether the supervisor gives up instead of starting another reconnect
/// round: the last `MAX_RECONNECT_ATTEMPTS` rounds all failed.
pub open spec fn gives_up(v: SupervisorView) -> bool {
    v.reconnect_attempts >= MAX_RECONNECT_ATTEMPTS
}

/// The state once a reconnect round starts (unchanged when giving up).
pub open spec fn begin_state(v: SupervisorView) -> SupervisorView {
    if gives_up(v) { v } else { SupervisorView { reconnect_attempts: (v.reconnect_attempts + 1) as u32, ..v } }
}

/// The error reported when the pipeline stops after failed reconnects.
pub open spec fn give_up_text(direction: Seq<char>) -> Seq<char> {
    "["@ + direction + "] STT reconnect failed after 5 attempts, stopping pipeline"@
}

/// The state and next step after an attempt to open `kind` succeeded (`ok`) or failed.
pub open spec fn attempt_transition(v: SupervisorView, kind: SttKind, ok: bool) -> (SupervisorView, AttemptStep) {
    if ok {
        (
            SupervisorView { current: kind, need_reconnect: false, reconnect_attempts: 0, ..v },
            if kind == SttKind::Deepgram { AttemptStep::Resume } else { AttemptStep::Restart },
        )
    } else {
        (
            v,
            match kind {
                SttKind::Yandex => if v.current != SttKind::Whisper {
                    AttemptStep::TryNext(SttKind::Whisper)
                } else {
                    AttemptStep::TryNext(SttKind::Deepgram)
                },
                _ => AttemptStep::Restart,
            },
        )
    }
}

/// The state after a send or receive on the speech-to-text session failed.
pub open spec fn error_state(v: SupervisorView) -> SupervisorView {
    SupervisorView { drop_count: (v.drop_count + 1) as u32, need_reconnect: true, ..v }
}

/// The supervision state of one pipeline's speech-to-text session.
pub struct SttSupervisor {
    provider: SttProvider,
    has_yandex_key: bool,
    current: SttKind,
    need_reconnect: bool,
    reconnect_attempts: u32,
    drop_count: u32,
    loop_count: u64,
}

impl View for SttSupervisor {
    type V = SupervisorView;

    closed spec fn view(&self) -> SupervisorView {
        SupervisorView {
            provider: self.provider,
            has_yandex_key: self.has_yandex_key,
            current: self.current,
            need_reconnect: self.need_reconnect,
            reconnect_attempts: self.reconnect_attempts,
            drop_count: self.drop_count,
            loop_count: self.loop_count,
        }
    }
}

/// The result of starting a reconnect round: how long to wait and which
/// service to try first, or the error to report before the pipeline stops.
pub enum ReconnectStart {
    Attempt { backoff_ms: u64, first: SttKind },
    GiveUp(Event),
}

impl SttSupervisor {
    /// Supervision of a session of kind `current` that has just been opened.
    pub fn new(provider: SttProvider, has_yandex_key: bool, current: SttKind) -> (s: Self)
        ensures
            s@ == (SupervisorView {
                provider,
                has_yandex_key,
                current,
                need_reconnect: false,
                reconnect_attempts: 0,
                drop_count: 0,
                loop_count: 0,
            }),
    {
        SttSupervisor {
            provider,
            has_yandex_key,
            current,
            need_reconnect: false,
            reconnect_attempts: 0,
            drop_count: 0,
            loop_count: 0,
        }
    }

    /// Whether the session must be reopened before audio is sent again.
    pub fn need_reconnect(&self) -> (b: bool)
        ensures
            b == self@.need_reconnect,
    {
        self.need_reconnect
    }

    /// The kind of the session in use.
    pub fn current(&self) -> (k: SttKind)
        ensures
            k == self@.current,
    {
        self.current
    }

    /// The number of failed sends and receives so far.
    pub fn drop_count(&self) -> (n: u32)
        ensures
            n == self@.drop_count,
    {
        self.drop_count
    }

    /// The number of reconnect rounds since the last successful one.
    pub fn reconnect_attempts(&self) -> (n: u32)
        ensures
            n == self@.reconnect_attempts,
    {
        self.reconnect_attempts
    }

    /// The number of loop iterations completed.
    pub fn loop_count(&self) -> (n: u64)
        ensures
            n == self@.loop_count,
    {
        self.loop_count
    }

    /// Records a failed send or receive: the session must be reopened.
    pub fn on_stream_error(&mut self)
        requires
            old(self)@.drop_count < u32::MAX,
        ensures
            final(self)@ == error_state(old(self)@),
    {
        self.drop_count = self.drop_count + 1;
        self.need_reconnect = true;
    }

    /// Starts a reconnect round: counts the attempt, and says how long to
    /// wait and which service to try first; after `MAX_RECONNECT_ATTEMPTS`
    /// consecutive failed rounds it gives up with an error instead.
    pub fn begin_reconnect(&mut self, direction: &str) -> (r: ReconnectStart)
        ensures
            final(self)@ == begin_state(old(self)@),
            gives_up(old(self)@) ==> (r matches ReconnectStart::GiveUp(e) && e@ == (EventView::Error {
                message: give_up_text(direction@),
            })),
            !gives_up(old(self)@) ==> (r matches ReconnectStart::Attempt { backoff_ms, first } && backoff_ms
                == spec_backoff_ms(final(self)@.reconnect_attempts) && first == first_candidate(old(self)@)),
    {
        if self.reconnect_attempts >= MAX_RECONNECT_ATTEMPTS {
            let mut m = String::new();
            m.append("[");
            m.append(direction);
            m.append("] STT reconnect failed after 5 attempts, stopping pipeline");
            return ReconnectStart::GiveUp(Event::Error { message: m });
        }
        self.reconnect_attempts = self.reconnect_attempts + 1;
        let backoff = backoff_ms(self.reconnect_attempts);
        let fallback = self.drop_count >= MAX_DEEPGRAM_DROPS && self.provider == SttProvider::Auto;
        let first = if fallback && self.has_yandex_key && self.current != SttKind::Yandex {
            SttKind::Yandex
        } else if fallback && self.current != SttKind::Whisper {
            SttKind::Whisper
        } else {
            SttKind::Deepgram
        };
        ReconnectStart::Attempt { backoff_ms: backoff, first }
    }

    /// Records whether opening a session of `kind` succeeded, and says what to do next.
    pub fn attempt_result(&mut self, kind: SttKind, ok: bool) -> (step: AttemptStep)
        ensures
            (final(self)@, step) == attempt_transition(old(self)@, kind, ok),
    {
        if ok {
            self.current = kind;
            self.need_reconnect = false;
            self.reconnect_attempts = 0;
            if kind == SttKind::Deepgram { AttemptStep::Resume } else { AttemptStep::Restart }
        } else {
            match kind {
                SttKind::Yandex => if self.current != SttKind::Whisper {
                    AttemptStep::TryNext(SttKind::Whisper)
                } else {
                    AttemptStep::TryNext(SttKind::Deepgram)
                },
                _ => AttemptStep::Restart,
            }
        }
    }

    /// Whether a silence keepalive is due: nothing was sent this iteration,
    /// no reconnect is pending, and at least 8 s passed since audio was last sent.
    pub fn keepalive_due(&self, chunks_sent: usize, since_last_send_ms: u64) -> (b: bool)
        ensures
            b == (chunks_sent == 0 && !self@.need_reconnect && since_last_send_ms >= 8000),
    {
        chunks_sent == 0 && !self.need_reconnect && since_last_send_ms >= 8000
    }

    /// Ends a loop iteration; every hundredth one is reported as alive.
    pub fn finish_iteration(&mut self, direction: &str) -> (e: Option<Event>)
        requires
            old(self)@.loop_count < u64::MAX,
        ensures
            final(self)@ == (SupervisorView { loop_count: (old(self)@.loop_count + 1) as u64, ..old(self)@ }),
            final(self)@.loop_count % 100 == 0 ==> (e matches Some(ev) && ev@ == (EventView::Log {
                level: "debug"@,
                message: "["@ + direction@ + "] Loop #"@ + decimal(final(self)@.loop_count as nat) + " alive"@,
            })),
            final(self)@.loop_count % 100 != 0 ==> e is None,
    {
        self.loop_count = self.loop_count + 1;
        if self.loop_count % 100 == 0 {
            let mut m = String::new();
            m.append("[");
            m.append(direction);
            m.append("] Loop #");
            push_decimal(&mut m, self.loop_count);
            m.append(" alive");
            Some(Event::Log { level: "debug".to_string(), message: m })
        } else {
            None
        }
    }
}

/// At most this many captured chunks are streamed in one loop iteration.
pub const MAX_CHUNKS_PER_ITERATION: usize = 10;

/// What a loop iteration of a pipeline starts with.
#[derive(Clone, Copy, PartialEq, Eq, Structural, Debug)]
pub enum LoopStart {
    /// The pipeline was asked to stop: leave the loop.
    Stop,
    /// The session must be reopened first.
    Reconnect,
    /// Stream captured audio.
    Stream,
}

impl SttSupervisor {
    /// How a loop iteration starts: a stop request wins, then a pending reconnect.
    pub fn loop_start(&self, stop_requested: bool) -> (s: LoopStart)
        ensures
            stop_requested ==> s == LoopStart::Stop,
            !stop_requested && self@.need_reconnect ==> s == LoopStart::Reconnect,
            !stop_requested && !self@.need_reconnect ==> s == LoopStart::Stream,
    {
        if stop_requested {
            LoopStart::Stop
        } else if self.need_reconnect {
            LoopStart::Reconnect
        } else {
            LoopStart::Stream
        }
    }
}

/// Whether a captured chunk is streamed to speech-to-text: a muted pipeline
/// drops every chunk it captures, so no audio of it is sent.
pub fn chunk_is_streamed(muted: bool) -> (b: bool)
    ensures
        b == !muted,
{
    !muted
}

/// The number of silent samples in a keepalive: 8 ms of audio at `rate` Hz.
pub fn keepalive_samples(rate: u32) -> (n: usize)
    ensures
        n == rate as int * 8 / 1000,
{
    let n: u64 = rate as u64 * 8 / 1000;
    n as usize
}

} // verus!

verus! {

/// Where a recognised text goes: an event for the user interface, and the
/// text with its latency for translation.
pub struct Routing {
    pub event: Option<Event>,
    pub forward: Option<(String, u64)>,
}

/// The log line of a recognised text dropped because the other pipeline's speech is playing.
pub open spec fn echo_drop_text(direction: Seq<char>, text: Seq<char>) -> Seq<char> {
    "["@ + direction + "] Echo suppressed, dropping transcript: '"@ + text + "'"@
}

/// Routes a recognised text: partials are only shown, stable partials are
/// shown and translated early, finals are translated. While `suppressed`
/// (the other pipeline's speech is playing) any text is only logged and dropped.
pub fn route_result(direction: &str, source_lang: &str, result: crate::stt::SttResult, suppressed: bool) -> (r: Routing)
    ensures
        suppressed ==> (r.forward is None && (r.event matches Some(e) && e@ == (EventView::Log {
            level: "debug"@,
            message: echo_drop_text(direction@, result.text@),
        }))),
        !suppressed && result.kind == crate::stt::SttResultKind::Partial ==> (r.forward is None && (r.event matches Some(e)
            && e@ == (EventView::PartialTranscript {
                direction: direction@,
                text: result.text@,
                lang: source_lang@,
                stt_ms: result.stt_latency_ms,
            }))),
        !suppressed && result.kind == crate::stt::SttResultKind::StablePartial ==> (r.event matches Some(e)
            && e@ == (EventView::StablePartialTranscript {
                direction: direction@,
                text: result.text@,
                lang: source_lang@,
                stt_ms: result.stt_latency_ms,
            })),
        !suppressed && result.kind == crate::stt::SttResultKind::Final ==> r.event is None,
        !suppressed && result.kind != crate::stt::SttResultKind::Partial ==> (r.forward matches Some(f) && f.0@
            == result.text@ && f.1 == result.stt_latency_ms),
{
    if suppressed {
        let mut m = String::new();
        m.append("[");
        m.append(direction);
        m.append("] Echo suppressed, dropping transcript: '");
        m.append(result.text.as_str());
        m.append("'");
        return Routing { event: Some(Event::Log { level: "debug".to_string(), message: m }), forward: None };
    }
    match result.kind {
        crate::stt::SttResultKind::Partial => Routing {
            event: Some(
                Event::PartialTranscript {
                    direction: direction.to_string(),
                    text: result.text,
                    lang: source_lang.to_string(),
                    stt_ms: result.stt_latency_ms,
                },
            ),
            forward: None,
        },
        crate::stt::SttResultKind::StablePartial => {
            let forwarded = result.text.clone();
            Routing {
                event: Some(
                    Event::StablePartialTranscript {
                        direction: direction.to_string(),
                        text: result.text,
                        lang: source_lang.to_string(),
                        stt_ms: result.stt_latency_ms,
                    },
                ),
                forward: Some((forwarded, result.stt_latency_ms)),
            }
        },
        crate::stt::SttResultKind::Final => Routing {
            event: None,
            forward: Some((result.text, result.stt_latency_ms)),
        },
    }
}

impl SttSupervisor {
    /// Records a failed receive and builds the error event reporting it.
    pub fn on_poll_error(&mut self, direction: &str, err: &str) -> (e: Event)
        requires
            old(self)@.drop_count < u32::MAX,
        ensures
            final(self)@ == error_state(old(self)@),
            e@ == (EventView::Error { message: "["@ + direction@ + "] STT error: "@ + err@ }),
    {
        self.on_stream_error();
        let mut m = String::new();
        m.append("[");
        m.append(direction);
        m.append("] STT error: ");
        m.append(err);
        Event::Error { message: m }
    }
}

/// The backoff is 2 s on the first attempt, at least 2 s on every attempt,
/// and never more than 30 s.
pub proof fn law_backoff_bounds(attempts: u32)
    ensures
        attempts >= 1 ==> spec_backoff_ms(attempts) >= 2000,
        spec_backoff_ms(attempts) <= MAX_BACKOFF_MS,
        spec_backoff_ms(1) == 2000,
{
    vstd::arithmetic::power2::lemma2_to64();
    vstd::arithmetic::power2::lemma_pow2_pos(if attempts == 0 { 0 } else if attempts - 1 > 16 { 16 } else { (attempts - 1) as nat });
}

/// The backoff never shrinks as attempts accumulate.
pub proof fn law_backoff_monotone(a: u32, b: u32)
    requires
        a <= b,
    ensures
        spec_backoff_ms(a) <= spec_backoff_ms(b),
{
    let ea: nat = if a == 0 { 0 } else if a - 1 > 16 { 16 } else { (a - 1) as nat };
    let eb: nat = if b == 0 { 0 } else if b - 1 > 16 { 16 } else { (b - 1) as nat };
    if ea < eb {
        vstd::arithmetic::power2::lemma_pow2_strictly_increases(ea, eb);
    }
}

/// In automatic mode, once Deepgram has dropped often enough, a reconnect
/// round tries Yandex first (when a key is set), then local Whisper, and ends
/// the round when Whisper fails too.
pub proof fn law_auto_fallback_order(v: SupervisorView)
    requires
        v.provider == SttProvider::Auto,
        v.drop_count >= MAX_DEEPGRAM_DROPS,
        v.current == SttKind::Deepgram,
        v.has_yandex_key,
    ensures
        first_candidate(v) == SttKind::Yandex,
        attempt_transition(begin_state(v), SttKind::Yandex, false).1 == AttemptStep::TryNext(SttKind::Whisper),
        attempt_transition(begin_state(v), SttKind::Whisper, false).1 == AttemptStep::Restart,
{
}

/// Each provider name selects its own service; anything else selects none.
pub proof fn law_provider_names(s: Seq<char>)
    ensures
        provider_of("auto"@) == SttProvider::Auto,
        provider_of("deepgram"@) == SttProvider::Deepgram,
        provider_of("yandex"@) == SttProvider::Yandex,
        provider_of("whisper"@) == SttProvider::Whisper,
        s != "auto"@ && s != "deepgram"@ && s != "yandex"@ && s != "whisper"@ ==> provider_of(s) == SttProvider::Other,
{
    reveal_strlit("auto");
    reveal_strlit("deepgram");
    reveal_strlit("yandex");
    reveal_strlit("whisper");
    assert("auto"@.len() == 4 && "deepgram"@.len() == 8 && "yandex"@.len() == 6 && "whisper"@.len() == 7);
}

/// The first session a pipeline opens is the configured service: Whisper for
/// "whisper", Deepgram for "deepgram" and "auto", Yandex for "yandex" when a
/// key is set (none without one), and none for an unknown provider; the key
/// matters only for Yandex.
pub proof fn law_initial_session_follows_provider(provider: SttProvider, has_yandex_key: bool)
    ensures
        spec_initial_session(SttProvider::Whisper, has_yandex_key) == Some(SttKind::Whisper),
        spec_initial_session(SttProvider::Deepgram, has_yandex_key) == Some(SttKind::Deepgram),
        spec_initial_session(SttProvider::Auto, has_yandex_key) == Some(SttKind::Deepgram),
        spec_initial_session(SttProvider::Yandex, true) == Some(SttKind::Yandex),
        spec_initial_session(SttProvider::Yandex, false) is None,
        spec_initial_session(SttProvider::Other, has_yandex_key) is None,
        provider != SttProvider::Yandex ==> spec_initial_session(provider, true) == spec_initial_session(provider, false),
        spec_initial_session(provider, has_yandex_key) matches Some(k) ==> (k == SttKind::Yandex
            <==> provider == SttProvider::Yandex),
{
}

/// Only automatic mode recovers from a first Deepgram failure: with a Yandex
/// key it opens Yandex, else local Whisper, and never Deepgram again.
pub proof fn law_deepgram_failure_fallback(provider: SttProvider, has_yandex_key: bool)
    ensures
        spec_after_deepgram_failure(SttProvider::Auto, true) == Some(SttKind::Yandex),
        spec_after_deepgram_failure(SttProvider::Auto, false) == Some(SttKind::Whisper),
        provider != SttProvider::Auto ==> spec_after_deepgram_failure(provider, has_yandex_key) is None,
        spec_after_deepgram_failure(provider, has_yandex_key) != Some(SttKind::Deepgram),
{
}

/// A failed attempt leaves the supervision state unchanged, so failed
/// rounds keep counting towards the limit.
pub proof fn law_failures_keep_count(v: SupervisorView, kind: SttKind)
    ensures
        attempt_transition(v, kind, false).0 == v,
{
}

/// The state after `n` reconnect rounds in which every attempt failed.
pub open spec fn failed_rounds(v: SupervisorView, n: nat) -> SupervisorView
    decreases n,
{
    if n == 0 { v } else { begin_state(failed_rounds(v, (n - 1) as nat)) }
}

/// Once a connection is lost, five reconnect rounds are made, waiting 2, 4, 8,
/// 16 and 30 s; when all of them fail the next round gives up and the
/// pipeline stops with an error.
pub proof fn law_circuit_breaker(v: SupervisorView)
    requires
        v.reconnect_attempts == 0,
    ensures
        !gives_up(failed_rounds(v, 0)),
        !gives_up(failed_rounds(v, 1)),
        !gives_up(failed_rounds(v, 2)),
        !gives_up(failed_rounds(v, 3)),
        !gives_up(failed_rounds(v, 4)),
        gives_up(failed_rounds(v, 5)),
        begin_state(failed_rounds(v, 5)) == failed_rounds(v, 5),
        spec_backoff_ms(failed_rounds(v, 1).reconnect_attempts) == 2000,
        spec_backoff_ms(failed_rounds(v, 2).reconnect_attempts) == 4000,
        spec_backoff_ms(failed_rounds(v, 3).reconnect_attempts) == 8000,
        spec_backoff_ms(failed_rounds(v, 4).reconnect_attempts) == 16000,
        spec_backoff_ms(failed_rounds(v, 5).reconnect_attempts) == 30000,
{
    reveal_with_fuel(failed_rounds, 6);
    vstd::arithmetic::power2::lemma2_to64();
}

/// Outside automatic mode, or before enough drops, every round tries Deepgram.
pub proof fn law_deepgram_first_otherwise(v: SupervisorView)
    requires
        !fallback_mode(v),
    ensures
        first_candidate(v) == SttKind::Deepgram,
{
}

/// A successful reconnect clears the pending reconnect and the attempt count,
/// and keeps the count of drops.
pub proof fn law_success_resets(v: SupervisorView, kind: SttKind)
    ensures
        !attempt_transition(v, kind, true).0.need_reconnect,
        attempt_transition(v, kind, true).0.reconnect_attempts == 0,
        attempt_transition(v, kind, true).0.current == kind,
        attempt_transition(v, kind, true).0.drop_count == v.drop_count,
{
}

/// Errors only ever add to the count of drops and always demand a reconnect.
pub proof fn law_errors_accumulate(v: SupervisorView)
    requires
        v.drop_count < u32::MAX,
    ensures
        error_state(v).drop_count == v.drop_count + 1,
        error_state(v).need_reconnect,
        error_state(v).current == v.current,
{
}

} // verus!
