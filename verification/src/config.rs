//! Engine configuration, assembled from the values of its environment variables.
use vstd::prelude::*;
use vstd::string::*;

use crate::text::chars_of;

verus! {

/// The value of the decimal digit `c`, when it is one.
pub open spec fn digit_value(c: char) -> Option<nat> {
    if '0' <= c && c <= '9' { Some((c as u32 - '0' as u32) as nat) } else { None }
}

/// Whether every character of `s` is an ASCII decimal digit.
pub open spec fn all_digits(s: Seq<char>) -> bool {
    forall|i: int| 0 <= i < s.len() ==> #[trigger] digit_value(s[i]) is Some
}

/// The number written by the digits `s`.
pub open spec fn digits_value(s: Seq<char>) -> nat
    decreases s.len(),
{
    if s.len() == 0 {
        0
    } else {
        digits_value(s.drop_last()) * 10 + digit_value(s.last())->0
    }
}

/// What `str::parse::<u32>` returns: an optional `+`, then at least one
/// ASCII digit and nothing else, of a value that fits in a `u32`.
pub open spec fn parse_u32_spec(s: Seq<char>) -> Option<u32> {
    let body = if s.len() > 0 && s[0] == '+' { s.drop_first() } else { s };
    if body.len() == 0 || !all_digits(body) || digits_value(body) > u32::MAX {
        None
    } else {
        Some(digits_value(body) as u32)
    }
}

proof fn lemma_digits_value_grows(s: Seq<char>, i: int)
    requires
        0 <= i <= s.len(),
        all_digits(s),
    ensures
        digits_value(s.take(i)) <= digits_value(s),
    decreases s.len() - i,
{
    if i < s.len() {
        lemma_digits_value_grows(s, i + 1);
        assert(s.take(i + 1).drop_last() == s.take(i));
        assert(digit_value(s[i]) is Some);
    } else {
        assert(s.take(i) == s);
    }
}

/// Parses a decimal `u32` as `str::parse::<u32>` does.
pub fn parse_u32(s: &str) -> (r: Option<u32>)
    ensures
        r == parse_u32_spec(s@),
{
    let v = chars_of(s);
    let start: usize = if v.len() > 0 && v[0] == '+' { 1 } else { 0 };
    let ghost body = if s@.len() > 0 && s@[0] == '+' { s@.drop_first() } else { s@ };
    proof {
        assert(body == v@.skip(start as int));
    }
    if start == v.len() {
        return None;
    }
    let mut acc: u64 = 0;
    let mut i: usize = start;
    while i < v.len()
        invariant
            start <= i <= v.len(),
            body == v@.skip(start as int),
            body == (if s@.len() > 0 && s@[0] == '+' { s@.drop_first() } else { s@ }),
            v@ == s@,
            acc == digits_value(v@.subrange(start as int, i as int)),
            all_digits(v@.subrange(start as int, i as int)),
            acc <= u32::MAX,
        decreases v.len() - i,
    {
        let c = v[i];
        if c < '0' || c > '9' {
            proof {
                assert(body[i - start] == c);
                assert(digit_value(body[i - start]) is None);
                assert(!all_digits(body));
            }
            return None;
        }
        let d = (c as u32 - '0' as u32) as u64;
        let next = acc * 10 + d;
        proof {
            let p = v@.subrange(start as int, i + 1);
            assert(p.drop_last() == v@.subrange(start as int, i as int));
            assert(p.last() == c);
            assert forall|k: int| 0 <= k < p.len() implies #[trigger] digit_value(p[k]) is Some by {
                if k < p.len() - 1 {
                    assert(p[k] == v@.subrange(start as int, i as int)[k]);
                }
            }
        }
        if next > u32::MAX as u64 {
            proof {
                let p = v@.subrange(start as int, i + 1);
                if all_digits(body) {
                    lemma_digits_value_grows(body, i + 1 - start);
                    assert(body.take(i + 1 - start) == p);
                }
            }
            return None;
        }
        acc = next;
        i += 1;
    }
    proof {
        assert(v@.subrange(start as int, v@.len() as int) == body);
    }
    Some(acc as u32)
}

} // verus!

verus! {

/// The raw values of the environment variables the engine reads, `None`
/// where a variable is unset (or not valid Unicode).
pub struct ConfigSources {
    /// `TRANSLATOR_MODELS_DIR`
    pub models_dir: Option<String>,
    /// `DEEPGRAM_API_KEY`
    pub deepgram_api_key: Option<String>,
    /// `GROQ_API_KEY`
    pub groq_api_key: Option<String>,
    /// `YANDEX_API_KEY`
    pub yandex_api_key: Option<String>,
    /// `YANDEX_FOLDER_ID`
    pub yandex_folder_id: Option<String>,
    /// `TRANSLATOR_PROVIDER`
    pub translation_provider: Option<String>,
    /// `LITELLM_BASE_URL`
    pub litellm_base_url: Option<String>,
    /// `LITELLM_API_KEY`
    pub litellm_api_key: Option<String>,
    /// `LITELLM_MODEL`
    pub litellm_model: Option<String>,
    /// `STT_PROVIDER`
    pub stt_provider: Option<String>,
    /// `WHISPER_MODEL`
    pub whisper_model: Option<String>,
    /// `TRANSLATOR_LOCAL_MT_RUEN`
    pub local_mt_ruen: Option<String>,
    /// `TRANSLATOR_LOCAL_MT_ENRU`
    pub local_mt_enru: Option<String>,
    /// `TRANSLATOR_TTS_EN_MODEL`
    pub tts_en_model: Option<String>,
    /// `TRANSLATOR_TTS_EN_CONFIG`
    pub tts_en_config: Option<String>,
    /// `TRANSLATOR_TTS_RU_MODEL`
    pub tts_ru_model: Option<String>,
    /// `TRANSLATOR_TTS_RU_CONFIG`
    pub tts_ru_config: Option<String>,
    /// `TRANSLATOR_MIC_DEVICE`
    pub mic_device: Option<String>,
    /// `TRANSLATOR_SPEAKER_DEVICE`
    pub speaker_device: Option<String>,
    /// `TRANSLATOR_MEET_INPUT`
    pub meet_input_device: Option<String>,
    /// `TRANSLATOR_MEET_OUTPUT`
    pub meet_output_device: Option<String>,
    /// `TRANSLATOR_SAMPLE_RATE`
    pub sample_rate: Option<String>,
    /// `TRANSLATOR_ENDPOINTING_MS`
    pub endpointing_ms: Option<String>,
    /// `TRANSLATOR_UTTERANCE_END_MS`
    pub utterance_end_ms: Option<String>,
    /// `TRANSLATOR_MY_LANG`
    pub my_language: Option<String>,
    /// `TRANSLATOR_THEIR_LANG`
    pub their_language: Option<String>,
}

/// The view of an optional value, or `default` when it is absent.
pub open spec fn or_default(v: Option<String>, default: Seq<char>) -> Seq<char> {
    match v {
        Some(s) => s@,
        None => default,
    }
}

/// The number an optional value parses to, or `default`.
pub open spec fn number_or(v: Option<String>, default: u32) -> u32 {
    match v {
        Some(s) => match parse_u32_spec(s@) {
            Some(n) => n,
            None => default,
        },
        None => default,
    }
}

/// The engine configuration.
pub struct EngineConfig {
    pub deepgram_api_key: String,
    pub groq_api_key: String,
    pub yandex_api_key: String,
    pub yandex_folder_id: String,
    pub translation_provider: String,
    pub litellm_base_url: String,
    pub litellm_api_key: String,
    pub litellm_model: String,
    pub stt_provider: String,
    pub whisper_model: String,
    pub local_mt_ruen: String,
    pub local_mt_enru: String,
    pub tts_en_model: String,
    pub tts_en_config: String,
    pub tts_ru_model: String,
    pub tts_ru_config: String,
    pub mic_device: String,
    pub speaker_device: String,
    pub meet_input_device: String,
    pub meet_output_device: String,
    pub sample_rate: u32,
    pub endpointing_ms: u32,
    pub utterance_end_ms: u32,
    pub my_language: String,
    pub their_language: String,
}

fn text_or(v: Option<String>, default: &str) -> (r: String)
    ensures
        r@ == or_default(v, default@),
{
    match v {
        Some(s) => s,
        None => default.to_string(),
    }
}

fn path_or(v: Option<String>, base: &str, suffix: &str) -> (r: String)
    ensures
        r@ == or_default(v, base@ + suffix@),
{
    match v {
        Some(s) => s,
        None => {
            let mut p = base.to_string();
            p.append(suffix);
            p
        },
    }
}

fn number_or_default(v: &Option<String>, default: u32) -> (n: u32)
    ensures
        n == number_or(*v, default),
{
    match v {
        Some(s) => match parse_u32(s.as_str()) {
            Some(n) => n,
            None => default,
        },
        None => default,
    }
}

impl EngineConfig {
    /// Assembles the configuration: each setting takes its variable's value,
    /// or its default when the variable is unset; numbers that do not parse
    /// as a `u32` take their default too; the default voice model paths lie
    /// under the models directory (`./models` by default).
    pub fn from_sources(src: ConfigSources) -> (c: EngineConfig)
        ensures
            c.deepgram_api_key@ == or_default(src.deepgram_api_key, ""@),
            c.groq_api_key@ == or_default(src.groq_api_key, ""@),
            c.yandex_api_key@ == or_default(src.yandex_api_key, ""@),
            c.yandex_folder_id@ == or_default(src.yandex_folder_id, ""@),
            c.translation_provider@ == or_default(src.translation_provider, "auto"@),
            c.litellm_base_url@ == or_default(src.litellm_base_url, ""@),
            c.litellm_api_key@ == or_default(src.litellm_api_key, ""@),
            c.litellm_model@ == or_default(src.litellm_model, "ollama:ministral-3:3b-cloud"@),
            c.stt_provider@ == or_default(src.stt_provider, "auto"@),
            c.whisper_model@ == or_default(src.whisper_model, "tiny"@),
            c.local_mt_ruen@ == or_default(src.local_mt_ruen, ""@),
            c.local_mt_enru@ == or_default(src.local_mt_enru, ""@),
            c.tts_en_model@ == or_default(
                src.tts_en_model,
                or_default(src.models_dir, "./models"@) + "/piper-en/en_US-ryan-medium.onnx"@,
            ),
            c.tts_en_config@ == or_default(
                src.tts_en_config,
                or_default(src.models_dir, "./models"@) + "/piper-en/en_US-ryan-medium.onnx.json"@,
            ),
            c.tts_ru_model@ == or_default(
                src.tts_ru_model,
                or_default(src.models_dir, "./models"@) + "/piper-ru/ru_RU-denis-medium.onnx"@,
            ),
            c.tts_ru_config@ == or_default(
                src.tts_ru_config,
                or_default(src.models_dir, "./models"@) + "/piper-ru/ru_RU-denis-medium.onnx.json"@,
            ),
            c.mic_device@ == or_default(src.mic_device, "default"@),
            c.speaker_device@ == or_default(src.speaker_device, "default"@),
            c.meet_input_device@ == or_default(src.meet_input_device, "default"@),
            c.meet_output_device@ == or_default(src.meet_output_device, "default"@),
            c.sample_rate == number_or(src.sample_rate, 48000),
            c.endpointing_ms == number_or(src.endpointing_ms, 300),
            c.utterance_end_ms == number_or(src.utterance_end_ms, 500),
            c.my_language@ == or_default(src.my_language, "ru"@),
            c.their_language@ == or_default(src.their_language, "en"@),
    {
        let sample_rate = number_or_default(&src.sample_rate, 48000);
        let endpointing_ms = number_or_default(&src.endpointing_ms, 300);
        let utterance_end_ms = number_or_default(&src.utterance_end_ms, 500);
        let base = text_or(src.models_dir, "./models");
        EngineConfig {
            deepgram_api_key: text_or(src.deepgram_api_key, ""),
            groq_api_key: text_or(src.groq_api_key, ""),
            yandex_api_key: text_or(src.yandex_api_key, ""),
            yandex_folder_id: text_or(src.yandex_folder_id, ""),
            translation_provider: text_or(src.translation_provider, "auto"),
            litellm_base_url: text_or(src.litellm_base_url, ""),
            litellm_api_key: text_or(src.litellm_api_key, ""),
            litellm_model: text_or(src.litellm_model, "ollama:ministral-3:3b-cloud"),
            stt_provider: text_or(src.stt_provider, "auto"),
            whisper_model: text_or(src.whisper_model, "tiny"),
            local_mt_ruen: text_or(src.local_mt_ruen, ""),
            local_mt_enru: text_or(src.local_mt_enru, ""),
            tts_en_model: path_or(src.tts_en_model, base.as_str(), "/piper-en/en_US-ryan-medium.onnx"),
            tts_en_config: path_or(src.tts_en_config, base.as_str(), "/piper-en/en_US-ryan-medium.onnx.json"),
            tts_ru_model: path_or(src.tts_ru_model, base.as_str(), "/piper-ru/ru_RU-denis-medium.onnx"),
            tts_ru_config: path_or(src.tts_ru_config, base.as_str(), "/piper-ru/ru_RU-denis-medium.onnx.json"),
            mic_device: text_or(src.mic_device, "default"),
            speaker_device: text_or(src.speaker_device, "default"),
            meet_input_device: text_or(src.meet_input_device, "default"),
            meet_output_device: text_or(src.meet_output_device, "default"),
            sample_rate,
            endpointing_ms,
            utterance_end_ms,
            my_language: text_or(src.my_language, "ru"),
            their_language: text_or(src.their_language, "en"),
        }
    }
}

} // verus!
