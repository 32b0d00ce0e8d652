//! Speech-to-text: results, request shaping, and the bookkeeping of streamed audio.
use vstd::prelude::*;
use vstd::string::*;

use crate::text::{str_eq, push_decimal, decimal, trim, is_blank_str};

verus! {

/// How settled a recognised text is.
#[derive(Clone, Copy, PartialEq, Eq, Structural, Debug)]
pub enum SttResultKind {
    /// Still changing.
    Partial,
    /// Will only be extended, no longer changed.
    StablePartial,
    /// The end of an utterance.
    Final,
}

/// A recognised text and how long recognition took.
pub struct SttResult {
    pub text: String,
    pub stt_latency_ms: u64,
    pub kind: SttResultKind,
}

} // verus!

verus! {

/// The Deepgram language code for a language code: Portuguese is asked for
/// as Brazilian, Norwegian as Bokmål.
pub open spec fn deepgram_language(code: Seq<char>) -> Seq<char> {
    if code == "pt"@ {
        "pt-BR"@
    } else if code == "no"@ {
        "nb"@
    } else {
        code
    }
}

/// Connection settings for Deepgram streaming recognition.
pub struct DeepgramStt {
    api_key: String,
    language: String,
    endpointing_ms: u32,
}

/// The settings of a Deepgram connection.
pub struct DeepgramSttView {
    pub api_key: Seq<char>,
    pub language: Seq<char>,
    pub endpointing_ms: u32,
}

impl View for DeepgramStt {
    type V = DeepgramSttView;

    closed spec fn view(&self) -> DeepgramSttView {
        DeepgramSttView {
            api_key: self.api_key@,
            language: self.language@,
            endpointing_ms: self.endpointing_ms,
        }
    }
}

/// The streaming endpoint, with its query, for the given settings.
pub open spec fn listen_url_text(language: Seq<char>, sample_rate: u32, endpointing_ms: u32) -> Seq<char> {
    if language == "any"@ {
        "wss://api.deepgram.com/v1/listen?model=nova-3&encoding=linear16&sample_rate="@
            + decimal(sample_rate as nat)
            + "&channels=1&multichannel=false&interim_results=true&endpointing="@
            + decimal(endpointing_ms as nat)
            + "&utterance_end_ms=1500&vad_events=true"@
    } else {
        "wss://api.deepgram.com/v1/listen?model=nova-3&language="@ + language
            + "&encoding=linear16&sample_rate="@ + decimal(sample_rate as nat)
            + "&channels=1&multichannel=false&interim_results=true&endpointing="@
            + decimal(endpointing_ms as nat)
            + "&utterance_end_ms=1500&vad_events=true"@
    }
}

impl DeepgramStt {
    /// Settings for recognising `language`, with the given pause (in ms)
    /// that ends an utterance.
    pub fn new(api_key: String, language: String, endpointing_ms: u32) -> (s: Self)
        ensures
            s@.api_key == api_key@,
            s@.language == deepgram_language(language@),
            s@.endpointing_ms == endpointing_ms,
    {
        let language = if str_eq(language.as_str(), "pt") {
            "pt-BR".to_string()
        } else if str_eq(language.as_str(), "no") {
            "nb".to_string()
        } else {
            language
        };
        DeepgramStt { api_key, language, endpointing_ms }
    }

    /// The language code sent to Deepgram.
    pub fn language(&self) -> (l: &str)
        ensures
            l@ == self@.language,
    {
        self.language.as_str()
    }

    /// The URL of a streaming session for audio at `sample_rate` Hz.
    pub fn listen_url(&self, sample_rate: u32) -> (u: String)
        ensures
            u@ == listen_url_text(self@.language, sample_rate, self@.endpointing_ms),
    {
        let mut u = String::new();
        if str_eq(self.language.as_str(), "any") {
            u.append("wss://api.deepgram.com/v1/listen?model=nova-3&encoding=linear16&sample_rate=");
        } else {
            u.append("wss://api.deepgram.com/v1/listen?model=nova-3&language=");
            u.append(self.language.as_str());
            u.append("&encoding=linear16&sample_rate=");
        }
        push_decimal(&mut u, sample_rate as u64);
        u.append("&channels=1&multichannel=false&interim_results=true&endpointing=");
        push_decimal(&mut u, self.endpointing_ms as u64);
        u.append("&utterance_end_ms=1500&vad_events=true");
        u
    }

    /// The value of the `Authorization` header of a session.
    pub fn authorization(&self) -> (h: String)
        ensures
            h@ == "Token "@ + self@.api_key,
    {
        let mut h = "Token ".to_string();
        h.append(self.api_key.as_str());
        h
    }
}

/// What a Deepgram message leads to.
#[derive(Clone, Copy, PartialEq, Eq, Structural, Debug)]
pub enum DeepgramStep {
    /// A final, non-blank transcript: hand it out.
    Emit,
    /// A final but blank transcript: report that nothing was recognised.
    Nothing,
    /// An interim result: keep reading.
    Continue,
}

/// How a Deepgram result message is handled, given its transcript and its `is_final` flag.
pub open spec fn deepgram_step(transcript: Seq<char>, is_final: Option<bool>) -> DeepgramStep {
    if is_final == Some(true) {
        if trim(transcript).len() != 0 { DeepgramStep::Emit } else { DeepgramStep::Nothing }
    } else {
        DeepgramStep::Continue
    }
}

/// Classifies a Deepgram result message.
pub fn classify_deepgram(transcript: &str, is_final: Option<bool>) -> (d: DeepgramStep)
    ensures
        d == deepgram_step(transcript@, is_final),
        is_final == Some(true) && !crate::text::is_blank(transcript@) ==> d == DeepgramStep::Emit,
        is_final == Some(true) && crate::text::is_blank(transcript@) ==> d == DeepgramStep::Nothing,
        is_final != Some(true) ==> d == DeepgramStep::Continue,
{
    proof {
        crate::text::lemma_trim_empty_iff_blank(transcript@);
    }
    let fin = match is_final {
        Some(b) => b,
        None => false,
    };
    if fin {
        if !is_blank_str(transcript) { DeepgramStep::Emit } else { DeepgramStep::Nothing }
    } else {
        DeepgramStep::Continue
    }
}

/// A final message is handed out exactly when its transcript is not blank;
/// a blank final gives nothing, and interim messages are read past.
pub proof fn law_deepgram_finals(transcript: Seq<char>, is_final: Option<bool>)
    ensures
        is_final == Some(true) ==> ((deepgram_step(transcript, is_final) == DeepgramStep::Emit) == !crate::text::is_blank(
            transcript,
        )),
        is_final == Some(true) && crate::text::is_blank(transcript) ==> deepgram_step(transcript, is_final)
            == DeepgramStep::Nothing,
        is_final != Some(true) ==> deepgram_step(transcript, is_final) == DeepgramStep::Continue,
{
    crate::text::lemma_trim_empty_iff_blank(transcript);
}

/// A final result for a recognised text, unless the text is blank.
pub fn final_result(text: String, latency_ms: u64) -> (r: Option<SttResult>)
    ensures
        crate::text::is_blank(text@) <==> r is None,
        trim(text@).len() == 0 ==> r is None,
        trim(text@).len() != 0 ==> (r matches Some(res) && res.text@ == text@ && res.stt_latency_ms
            == latency_ms && res.kind == SttResultKind::Final),
{
    proof {
        crate::text::lemma_trim_empty_iff_blank(text@);
    }
    if is_blank_str(text.as_str()) {
        None
    } else {
        Some(SttResult { text, stt_latency_ms: latency_ms, kind: SttResultKind::Final })
    }
}

/// The Yandex SpeechKit language code for a language code.
pub open spec fn yandex_stt_language(code: Seq<char>) -> Seq<char> {
    if code == "ru"@ {
        "ru-RU"@
    } else if code == "en"@ {
        "en-US"@
    } else {
        code
    }
}

/// The Yandex SpeechKit recognition URL for a folder and language.
pub fn yandex_stt_url(folder_id: &str, language: &str) -> (u: String)
    ensures
        u@ == "https://stt.api.cloud.yandex.net/speech/stt/v1/recognize?folderId="@ + folder_id@
            + "&lang="@ + yandex_stt_language(language@),
{
    let mut u = "https://stt.api.cloud.yandex.net/speech/stt/v1/recognize?folderId=".to_string();
    u.append(folder_id);
    u.append("&lang=");
    if str_eq(language, "ru") {
        u.append("ru-RU");
    } else if str_eq(language, "en") {
        u.append("en-US");
    } else {
        u.append(language);
    }
    u
}

/// The value of the `Authorization` header for a Yandex Cloud API key.
pub fn yandex_authorization(api_key: &str) -> (h: String)
    ensures
        h@ == "Api-Key "@ + api_key@,
{
    let mut h = "Api-Key ".to_string();
    h.append(api_key);
    h
}

} // verus!

verus! {

/// At most this many bytes of audio wait for a congested connection.
pub const MAX_PENDING_AUDIO: usize = 65536;

/// The newest `n` elements of `s` (all of `s` when it is shorter).
pub open spec fn keep_last(s: Seq<u8>, n: nat) -> Seq<u8> {
    if s.len() > n { s.skip(s.len() - n) } else { s }
}

/// How an attempt to send on the connection ended.
pub enum SendOutcome {
    Sent,
    /// The socket would have blocked; nothing was sent.
    WouldBlock,
    Failed(String),
}

/// Audio bytes waiting until a non-blocking connection accepts them; the
/// oldest are dropped beyond `MAX_PENDING_AUDIO` bytes.
pub struct PendingAudio {
    bytes: Vec<u8>,
}

impl View for PendingAudio {
    type V = Seq<u8>;

    closed spec fn view(&self) -> Seq<u8> {
        self.bytes@
    }
}

impl PendingAudio {
    /// The bound on what waits.
    pub closed spec fn wf(&self) -> bool {
        self.bytes@.len() <= MAX_PENDING_AUDIO
    }

    /// Nothing waiting.
    pub fn new() -> (p: Self)
        ensures
            p@ == Seq::<u8>::empty(),
            p.wf(),
    {
        PendingAudio { bytes: Vec::new() }
    }

    /// Whether nothing waits.
    pub fn is_empty(&self) -> (b: bool)
        ensures
            b == (self@.len() == 0),
    {
        self.bytes.len() == 0
    }

    /// A copy of what waits, to be sent.
    pub fn snapshot(&self) -> (v: Vec<u8>)
        ensures
            v@ == self@,
    {
        self.bytes.clone()
    }

    /// Drops everything that waits.
    pub fn clear(&mut self)
        ensures
            final(self)@ == Seq::<u8>::empty(),
            final(self).wf(),
    {
        self.bytes = Vec::new();
    }

    /// Queues `more` behind what waits, then drops the oldest bytes beyond the bound.
    pub fn push(&mut self, more: &Vec<u8>)
        requires
            old(self).wf(),
        ensures
            final(self)@ == keep_last(old(self)@ + more@, MAX_PENDING_AUDIO as nat),
            final(self).wf(),
    {
        let ghost all = self.bytes@ + more@;
        let old_len = self.bytes.len();
        // how many of the new bytes and of the old bytes stay
        let keep_more: usize = if more.len() > MAX_PENDING_AUDIO { MAX_PENDING_AUDIO } else { more.len() };
        let keep_old: usize = if old_len > MAX_PENDING_AUDIO - keep_more { MAX_PENDING_AUDIO - keep_more } else { old_len };
        let mut kept: Vec<u8> = Vec::new();
        let mut k: usize = old_len - keep_old;
        while k < old_len
            invariant
                old_len == self.bytes@.len(),
                keep_old <= old_len,
                old_len - keep_old <= k <= old_len,
                kept@ == self.bytes@.subrange(old_len - keep_old, k as int),
            decreases old_len - k,
        {
            kept.push(self.bytes[k]);
            assert(self.bytes@.subrange(old_len - keep_old, k + 1) == self.bytes@.subrange(old_len - keep_old, k as int).push(self.bytes@[k as int]));
            k += 1;
        }
        let mut j: usize = more.len() - keep_more;
        while j < more.len()
            invariant
                keep_more <= more.len(),
                more.len() - keep_more <= j <= more.len(),
                kept@ == self.bytes@.subrange(old_len - keep_old, old_len as int) + more@.subrange(more.len() - keep_more, j as int),
            decreases more.len() - j,
        {
            kept.push(more[j]);
            assert(more@.subrange(more.len() - keep_more, j + 1) == more@.subrange(more.len() - keep_more, j as int).push(more@[j as int]));
            j += 1;
        }
        proof {
            let r = keep_last(all, MAX_PENDING_AUDIO as nat);
            assert(kept@.len() == keep_old + keep_more);
            assert(r.len() == kept@.len());
            assert forall|i: int| 0 <= i < r.len() implies r[i] == kept@[i] by {
                if all.len() > MAX_PENDING_AUDIO {
                    assert(r[i] == all[all.len() - MAX_PENDING_AUDIO + i]);
                } else {
                    assert(r[i] == all[i]);
                }
            }
            assert(kept@ =~= r);
        }
        self.bytes = kept;
    }

    /// Handles the outcome of sending `bytes` (the encoding of new audio):
    /// on a would-block the bytes wait; a failure is reported.
    pub fn after_send(&mut self, bytes: &Vec<u8>, outcome: SendOutcome) -> (r: Result<(), String>)
        requires
            old(self).wf(),
        ensures
            final(self).wf(),
            outcome is WouldBlock ==> final(self)@ == keep_last(old(self)@ + bytes@, MAX_PENDING_AUDIO as nat),
            !(outcome is WouldBlock) ==> final(self)@ == old(self)@,
            outcome is Failed <==> r is Err,
            outcome matches SendOutcome::Failed(e) ==> (r matches Err(m) && m@ == "Failed to send audio to Deepgram: "@ + e@),
    {
        match outcome {
            SendOutcome::Sent => Ok(()),
            SendOutcome::WouldBlock => {
                self.push(bytes);
                Ok(())
            },
            SendOutcome::Failed(e) => {
                let mut m = "Failed to send audio to Deepgram: ".to_string();
                m.append(e.as_str());
                Err(m)
            },
        }
    }

    /// Handles the outcome of sending what waited: once sent, nothing waits.
    pub fn after_flush(&mut self, outcome: SendOutcome) -> (r: Result<(), String>)
        requires
            old(self).wf(),
        ensures
            final(self).wf(),
            outcome is Sent ==> final(self)@ == Seq::<u8>::empty(),
            !(outcome is Sent) ==> final(self)@ == old(self)@,
            outcome is Failed <==> r is Err,
            outcome matches SendOutcome::Failed(e) ==> (r matches Err(m) && m@ == "Failed to flush pending audio: "@ + e@),
    {
        match outcome {
            SendOutcome::Sent => {
                self.clear();
                Ok(())
            },
            SendOutcome::WouldBlock => Ok(()),
            SendOutcome::Failed(e) => {
                let mut m = "Failed to flush pending audio: ".to_string();
                m.append(e.as_str());
                Err(m)
            },
        }
    }
}

/// What waits never exceeds the bound, and it is always the newest audio:
/// queuing keeps a suffix of the old bytes followed by the new ones.
pub proof fn law_pending_keeps_newest(old_bytes: Seq<u8>, more: Seq<u8>)
    ensures
        keep_last(old_bytes + more, MAX_PENDING_AUDIO as nat).len() <= MAX_PENDING_AUDIO,
        keep_last(old_bytes + more, MAX_PENDING_AUDIO as nat).is_suffix_of(old_bytes + more),
        more.len() <= MAX_PENDING_AUDIO ==> more.is_suffix_of(keep_last(old_bytes + more, MAX_PENDING_AUDIO as nat)),
{
    let all = old_bytes + more;
    let k = keep_last(all, MAX_PENDING_AUDIO as nat);
    assert(k =~= all.subrange(all.len() - k.len(), all.len() as int));
    if more.len() <= MAX_PENDING_AUDIO {
        assert(more =~= k.subrange(k.len() - more.len(), k.len() as int));
    }
}

} // verus!
