//! Translation: language names and directions, the choice of provider, the
//! retry policy of chat-completion providers, and the clean-up of their output.
use vstd::prelude::*;
use vstd::string::*;

use crate::text::{str_eq, trim};

verus! {

/// The English name of a language code, or the code itself when it is not known.
pub open spec fn lang_name_spec(code: Seq<char>) -> Seq<char> {
    if code == "ar"@ {
        "Arabic"@
    } else if code == "ca"@ {
        "Catalan"@
    } else if code == "cs"@ {
        "Czech"@
    } else if code == "cy"@ {
        "Welsh"@
    } else if code == "da"@ {
        "Danish"@
    } else if code == "de"@ {
        "German"@
    } else if code == "el"@ {
        "Greek"@
    } else if code == "en"@ {
        "English"@
    } else if code == "es"@ {
        "Spanish"@
    } else if code == "fa"@ {
        "Persian"@
    } else if code == "fi"@ {
        "Finnish"@
    } else if code == "fr"@ {
        "French"@
    } else if code == "hi"@ {
        "Hindi"@
    } else if code == "hu"@ {
        "Hungarian"@
    } else if code == "is"@ {
        "Icelandic"@
    } else if code == "it"@ {
        "Italian"@
    } else if code == "ja"@ {
        "Japanese"@
    } else if code == "ka"@ {
        "Georgian"@
    } else if code == "kk"@ {
        "Kazakh"@
    } else if code == "ko"@ {
        "Korean"@
    } else if code == "lb"@ {
        "Luxembourgish"@
    } else if code == "lv"@ {
        "Latvian"@
    } else if code == "ml"@ {
        "Malayalam"@
    } else if code == "ne"@ {
        "Nepali"@
    } else if code == "nl"@ {
        "Dutch"@
    } else if code == "no"@ {
        "Norwegian"@
    } else if code == "pl"@ {
        "Polish"@
    } else if code == "pt"@ {
        "Portuguese"@
    } else if code == "ro"@ {
        "Romanian"@
    } else if code == "ru"@ {
        "Russian"@
    } else if code == "sk"@ {
        "Slovak"@
    } else if code == "sl"@ {
        "Slovenian"@
    } else if code == "sr"@ {
        "Serbian"@
    } else if code == "sv"@ {
        "Swedish"@
    } else if code == "sw"@ {
        "Swahili"@
    } else if code == "tr"@ {
        "Turkish"@
    } else if code == "uk"@ {
        "Ukrainian"@
    } else if code == "vi"@ {
        "Vietnamese"@
    } else if code == "zh"@ {
        "Chinese"@
    } else {
        code
    }
}

/// The English name of a language code, or the code itself when it is not known.
pub fn lang_name(code: &str) -> (name: &str)
    ensures
        name@ == lang_name_spec(code@),
{
    if str_eq(code, "ar") {
        "Arabic"
    } else if str_eq(code, "ca") {
        "Catalan"
    } else if str_eq(code, "cs") {
        "Czech"
    } else if str_eq(code, "cy") {
        "Welsh"
    } else if str_eq(code, "da") {
        "Danish"
    } else if str_eq(code, "de") {
        "German"
    } else if str_eq(code, "el") {
        "Greek"
    } else if str_eq(code, "en") {
        "English"
    } else if str_eq(code, "es") {
        "Spanish"
    } else if str_eq(code, "fa") {
        "Persian"
    } else if str_eq(code, "fi") {
        "Finnish"
    } else if str_eq(code, "fr") {
        "French"
    } else if str_eq(code, "hi") {
        "Hindi"
    } else if str_eq(code, "hu") {
        "Hungarian"
    } else if str_eq(code, "is") {
        "Icelandic"
    } else if str_eq(code, "it") {
        "Italian"
    } else if str_eq(code, "ja") {
        "Japanese"
    } else if str_eq(code, "ka") {
        "Georgian"
    } else if str_eq(code, "kk") {
        "Kazakh"
    } else if str_eq(code, "ko") {
        "Korean"
    } else if str_eq(code, "lb") {
        "Luxembourgish"
    } else if str_eq(code, "lv") {
        "Latvian"
    } else if str_eq(code, "ml") {
        "Malayalam"
    } else if str_eq(code, "ne") {
        "Nepali"
    } else if str_eq(code, "nl") {
        "Dutch"
    } else if str_eq(code, "no") {
        "Norwegian"
    } else if str_eq(code, "pl") {
        "Polish"
    } else if str_eq(code, "pt") {
        "Portuguese"
    } else if str_eq(code, "ro") {
        "Romanian"
    } else if str_eq(code, "ru") {
        "Russian"
    } else if str_eq(code, "sk") {
        "Slovak"
    } else if str_eq(code, "sl") {
        "Slovenian"
    } else if str_eq(code, "sr") {
        "Serbian"
    } else if str_eq(code, "sv") {
        "Swedish"
    } else if str_eq(code, "sw") {
        "Swahili"
    } else if str_eq(code, "tr") {
        "Turkish"
    } else if str_eq(code, "uk") {
        "Ukrainian"
    } else if str_eq(code, "vi") {
        "Vietnamese"
    } else if str_eq(code, "zh") {
        "Chinese"
    } else {
        code
    }
}

/// A translation direction: source and target language codes and names.
#[derive(Debug)]
pub struct TranslationDirection {
    pub from_code: String,
    pub from_name: String,
    pub to_code: String,
    pub to_name: String,
}

impl TranslationDirection {
    /// The direction from `from` to `to`, with the languages' English names.
    pub fn new(from: &str, to: &str) -> (d: Self)
        ensures
            d.from_code@ == from@,
            d.from_name@ == lang_name_spec(from@),
            d.to_code@ == to@,
            d.to_name@ == lang_name_spec(to@),
    {
        TranslationDirection {
            from_code: from.to_string(),
            from_name: lang_name(from).to_string(),
            to_code: to.to_string(),
            to_name: lang_name(to).to_string(),
        }
    }

    /// The direction as text, such as `ru→en` (its `Display` form).
    pub fn label(&self) -> (s: String)
        ensures
            s@ == self.from_code@ + "→"@ + self.to_code@,
    {
        let mut s = self.from_code.clone();
        s.append("→");
        s.append(self.to_code.as_str());
        s
    }

    /// A copy of the direction.
    pub fn duplicate(&self) -> (d: Self)
        ensures
            d.from_code@ == self.from_code@,
            d.from_name@ == self.from_name@,
            d.to_code@ == self.to_code@,
            d.to_name@ == self.to_name@,
    {
        TranslationDirection {
            from_code: self.from_code.clone(),
            from_name: self.from_name.clone(),
            to_code: self.to_code.clone(),
            to_name: self.to_name.clone(),
        }
    }
}

} // verus!

verus! {

/// A chat-completion translation provider.
#[derive(Clone, Copy, PartialEq, Eq, Structural, Debug)]
pub enum ChatProvider {
    Groq,
    LiteLlm,
}

/// How one chat-completion request ended.
pub enum HttpOutcome {
    /// A success status, and the body parsed; the first choice's content, if any.
    Completed { content: Option<String> },
    /// A success status, but the body did not parse.
    Unparsable { error: String },
    /// Any other status: its code, its text (such as `503 Service Unavailable`) and the body.
    Status { code: u16, status: String, body: String },
    /// The request itself failed.
    Failed { error: String },
}

/// What to do after a chat-completion request.
pub enum RetryStep {
    /// Finished, with the translation or the error.
    Done(Result<String, String>),
    /// Send the request again after this many milliseconds.
    RetryAfter(u64),
    /// The clean-up of the output panics here; the request's thread dies.
    Crashed,
}

/// The pause before the first retry.
pub open spec fn base_delay(p: ChatProvider) -> u64 {
    match p {
        ChatProvider::Groq => 1000,
        ChatProvider::LiteLlm => 500,
    }
}

/// The error kept when a success response does not parse.
pub open spec fn parse_error_text(p: ChatProvider, e: Seq<char>) -> Seq<char> {
    match p {
        ChatProvider::Groq => "❌ GROQ parse error: "@ + e,
        ChatProvider::LiteLlm => "[LITELLM] Parse error: "@ + e,
    }
}

/// The error returned at once for a client error status (4xx).
pub open spec fn client_error_text(p: ChatProvider, status: Seq<char>, body: Seq<char>) -> Seq<char> {
    match p {
        ChatProvider::Groq => "Groq error "@ + status + ": "@ + body,
        ChatProvider::LiteLlm => "LiteLLM error "@ + status + ": "@ + body,
    }
}

/// The error kept for any other unsuccessful status.
pub open spec fn status_error_text(p: ChatProvider, status: Seq<char>, body: Seq<char>) -> Seq<char> {
    match p {
        ChatProvider::Groq => "Groq error "@ + status + ": "@ + body,
        ChatProvider::LiteLlm => "[LITELLM] Error "@ + status + ": "@ + body,
    }
}

/// The error kept when the request fails.
pub open spec fn request_error_text(p: ChatProvider, e: Seq<char>) -> Seq<char> {
    match p {
        ChatProvider::Groq => "❌ GROQ request failed: "@ + e,
        ChatProvider::LiteLlm => "[LITELLM] Request failed: "@ + e,
    }
}

/// Whether a status code is a client error.
pub open spec fn is_client_error(code: u16) -> bool {
    400 <= code < 500
}

/// The error an unsuccessful outcome leaves behind.
pub open spec fn outcome_error(p: ChatProvider, o: HttpOutcome) -> Seq<char> {
    match o {
        HttpOutcome::Unparsable { error } => parse_error_text(p, error@),
        HttpOutcome::Status { code, status, body } => if is_client_error(code) {
            client_error_text(p, status@, body@)
        } else {
            status_error_text(p, status@, body@)
        },
        HttpOutcome::Failed { error } => request_error_text(p, error@),
        HttpOutcome::Completed { .. } => Seq::empty(),
    }
}

/// A chat-completion request is tried this many times.
pub const MAX_ATTEMPTS: u32 = 3;

/// The retry state of a chat-completion translation.
pub struct ChatRetry {
    provider: ChatProvider,
    attempt: u32,
}

/// The provider and the number of the attempt under way.
pub struct ChatRetryView {
    pub provider: ChatProvider,
    pub attempt: u32,
}

impl View for ChatRetry {
    type V = ChatRetryView;

    closed spec fn view(&self) -> ChatRetryView {
        ChatRetryView { provider: self.provider, attempt: self.attempt }
    }
}

fn error_of(p: ChatProvider, o: &HttpOutcome) -> (e: String)
    requires
        !(o is Completed),
    ensures
        e@ == outcome_error(p, *o),
{
    let mut e = String::new();
    match o {
        HttpOutcome::Unparsable { error } => {
            match p {
                ChatProvider::Groq => e.append("❌ GROQ parse error: "),
                ChatProvider::LiteLlm => e.append("[LITELLM] Parse error: "),
            }
            e.append(error.as_str());
        },
        HttpOutcome::Status { code, status, body } => {
            let client = *code >= 400 && *code < 500;
            match p {
                ChatProvider::Groq => e.append("Groq error "),
                ChatProvider::LiteLlm => if client {
                    e.append("LiteLLM error ")
                } else {
                    e.append("[LITELLM] Error ")
                },
            }
            e.append(status.as_str());
            e.append(": ");
            e.append(body.as_str());
        },
        HttpOutcome::Failed { error } => {
            match p {
                ChatProvider::Groq => e.append("❌ GROQ request failed: "),
                ChatProvider::LiteLlm => e.append("[LITELLM] Request failed: "),
            }
            e.append(error.as_str());
        },
        HttpOutcome::Completed { .. } => {},
    }
    e
}

impl ChatRetry {
    /// The state before the first attempt.
    pub fn new(provider: ChatProvider) -> (r: Self)
        ensures
            r@ == (ChatRetryView { provider, attempt: 1 }),
    {
        ChatRetry { provider, attempt: 1 }
    }

    /// Handles the outcome of the attempt under way: a parsed success is
    /// cleaned up and returned, a client error is returned at once, any
    /// other failure is retried (after 1 s then 2 s for Groq, 0.5 s then
    /// 1 s for LiteLLM) until three attempts were made, when the last
    /// failure is returned.
    pub fn on_outcome(&mut self, outcome: HttpOutcome) -> (step: RetryStep)
        requires
            1 <= old(self)@.attempt <= MAX_ATTEMPTS,
        ensures
            final(self)@.provider == old(self)@.provider,
            1 <= final(self)@.attempt <= MAX_ATTEMPTS,
            outcome matches HttpOutcome::Completed { content } ==> ({
                let text = crate::completion::completion_text(crate::completion::opt_view(content));
                &&& final(self)@ == old(self)@
                &&& (step is Crashed <==> !crate::completion::cut_ok(trim(text), crate::completion::lowercase(trim(text))))
                &&& (!(step is Crashed) ==> (step matches RetryStep::Done(Ok(t)) && t@ == crate::completion::clean_spec(text)))
            }),
            outcome matches HttpOutcome::Status { code, .. } && is_client_error(code) ==> (
                step matches RetryStep::Done(Err(e)) && e@ == outcome_error(old(self)@.provider, outcome)),
            !(outcome is Completed) && !(outcome matches HttpOutcome::Status { code, .. } && is_client_error(code)) ==> (
                if old(self)@.attempt < MAX_ATTEMPTS {
                    &&& final(self)@.attempt == old(self)@.attempt + 1
                    &&& step matches RetryStep::RetryAfter(ms) && ms == base_delay(old(self)@.provider)
                        * (if old(self)@.attempt == 1 { 1int } else { 2int })
                } else {
                    step matches RetryStep::Done(Err(e)) && e@ == outcome_error(old(self)@.provider, outcome)
                }),
    {
        if let HttpOutcome::Completed { content } = outcome {
            return match crate::completion::completion_translation(content) {
                Some(t) => RetryStep::Done(Ok(t)),
                None => RetryStep::Crashed,
            };
        }
        let err = error_of(self.provider, &outcome);
        if let HttpOutcome::Status { code, .. } = outcome {
            if code >= 400 && code < 500 {
                return RetryStep::Done(Err(err));
            }
        }
        if self.attempt < MAX_ATTEMPTS {
            let delay: u64 = match self.provider {
                ChatProvider::Groq => 1000,
                ChatProvider::LiteLlm => 500,
            };
            let delay = if self.attempt == 1 { delay } else { delay * 2 };
            self.attempt = self.attempt + 1;
            RetryStep::RetryAfter(delay)
        } else {
            RetryStep::Done(Err(err))
        }
    }
}

} // verus!

verus! {

/// A local translation model.
#[derive(Clone, Copy, PartialEq, Eq, Structural, Debug)]
pub enum MtModel {
    RuEn,
    EnRu,
}

/// How a text is to be translated.
pub enum TranslationPlan {
    /// Nothing to translate: the result is the empty text, from provider "empty".
    Empty,
    Groq,
    Yandex,
    LiteLlm,
    LocalMt(MtModel),
    /// Ask every provider that has credentials, at once; the first success wins.
    Hedge { groq: bool, litellm: bool, yandex: bool },
    /// No translation is possible; the error.
    Fail(String),
}

/// Translation settings: credentials, the provider setting and local model paths.
pub struct TranslationEngine {
    groq_key: String,
    yandex_key: String,
    yandex_folder_id: String,
    litellm_base_url: String,
    litellm_api_key: String,
    litellm_model: String,
    provider: String,
    mt_ruen_path: String,
    mt_enru_path: String,
}

/// The settings of a translation engine.
pub struct TranslationEngineView {
    pub groq_key: Seq<char>,
    pub yandex_key: Seq<char>,
    pub yandex_folder_id: Seq<char>,
    pub litellm_base_url: Seq<char>,
    pub litellm_api_key: Seq<char>,
    pub litellm_model: Seq<char>,
    pub provider: Seq<char>,
    pub mt_ruen_path: Seq<char>,
    pub mt_enru_path: Seq<char>,
}

impl View for TranslationEngine {
    type V = TranslationEngineView;

    closed spec fn view(&self) -> TranslationEngineView {
        TranslationEngineView {
            groq_key: self.groq_key@,
            yandex_key: self.yandex_key@,
            yandex_folder_id: self.yandex_folder_id@,
            litellm_base_url: self.litellm_base_url@,
            litellm_api_key: self.litellm_api_key@,
            litellm_model: self.litellm_model@,
            provider: self.provider@,
            mt_ruen_path: self.mt_ruen_path@,
            mt_enru_path: self.mt_enru_path@,
        }
    }
}

/// Whether a Groq key looks usable (longer than 4 bytes).
pub open spec fn has_groq(v: TranslationEngineView) -> bool {
    crate::text::utf8_len(v.groq_key) > 4
}

/// Whether a Yandex key looks usable (longer than 4 bytes).
pub open spec fn has_yandex(v: TranslationEngineView) -> bool {
    crate::text::utf8_len(v.yandex_key) > 4
}

/// Whether a LiteLLM key looks usable (longer than 2 bytes).
pub open spec fn has_litellm_key(v: TranslationEngineView) -> bool {
    crate::text::utf8_len(v.litellm_api_key) > 2
}

/// The provider(s) used for a text, as the provider setting and the credentials decide.
pub enum PlanView {
    Empty,
    Groq,
    Yandex,
    LiteLlm,
    LocalMt(MtModel),
    Hedge { groq: bool, litellm: bool, yandex: bool },
    Fail(Seq<char>),
}

/// How a text is translated in the given direction.
pub open spec fn plan_spec(v: TranslationEngineView, text: Seq<char>, from: Seq<char>, to: Seq<char>) -> PlanView {
    if trim(text).len() == 0 {
        PlanView::Empty
    } else if v.provider == "groq"@ {
        if has_groq(v) { PlanView::Groq } else { PlanView::Fail("Groq selected but no valid API key"@) }
    } else if v.provider == "yandex"@ {
        if has_yandex(v) { PlanView::Yandex } else { PlanView::Fail("Yandex selected but no valid API key"@) }
    } else if v.provider == "litellm"@ {
        if has_litellm_key(v) { PlanView::LiteLlm } else { PlanView::Fail("LiteLLM selected but no valid API key"@) }
    } else if v.provider == "local_mt"@ {
        if from == "ru"@ && to == "en"@ {
            PlanView::LocalMt(MtModel::RuEn)
        } else if from == "en"@ && to == "ru"@ {
            PlanView::LocalMt(MtModel::EnRu)
        } else {
            PlanView::Fail("Local MT not available for "@ + from + "→"@ + to)
        }
    } else {
        let g = has_groq(v);
        let l = has_litellm_key(v) && v.litellm_base_url.len() > 0;
        let y = has_yandex(v);
        if !g && !l && !y {
            PlanView::Fail("No valid API keys available for translation"@)
        } else {
            PlanView::Hedge { groq: g, litellm: l, yandex: y }
        }
    }
}

/// The view of a plan.
pub open spec fn plan_view(p: TranslationPlan) -> PlanView {
    match p {
        TranslationPlan::Empty => PlanView::Empty,
        TranslationPlan::Groq => PlanView::Groq,
        TranslationPlan::Yandex => PlanView::Yandex,
        TranslationPlan::LiteLlm => PlanView::LiteLlm,
        TranslationPlan::LocalMt(m) => PlanView::LocalMt(m),
        TranslationPlan::Hedge { groq, litellm, yandex } => PlanView::Hedge { groq, litellm, yandex },
        TranslationPlan::Fail(e) => PlanView::Fail(e@),
    }
}

fn fail(msg: &str) -> (p: TranslationPlan)
    ensures
        plan_view(p) == PlanView::Fail(msg@),
{
    TranslationPlan::Fail(msg.to_string())
}

impl TranslationEngine {
    /// Settings for translation.
    pub fn new(
        groq_key: &str,
        yandex_key: &str,
        yandex_folder_id: &str,
        provider: &str,
        litellm_base_url: &str,
        litellm_api_key: &str,
        litellm_model: &str,
        mt_ruen_path: &str,
        mt_enru_path: &str,
    ) -> (e: Self)
        ensures
            e@ == (TranslationEngineView {
                groq_key: groq_key@,
                yandex_key: yandex_key@,
                yandex_folder_id: yandex_folder_id@,
                litellm_base_url: litellm_base_url@,
                litellm_api_key: litellm_api_key@,
                litellm_model: litellm_model@,
                provider: provider@,
                mt_ruen_path: mt_ruen_path@,
                mt_enru_path: mt_enru_path@,
            }),
    {
        TranslationEngine {
            groq_key: groq_key.to_string(),
            yandex_key: yandex_key.to_string(),
            yandex_folder_id: yandex_folder_id.to_string(),
            litellm_base_url: litellm_base_url.to_string(),
            litellm_api_key: litellm_api_key.to_string(),
            litellm_model: litellm_model.to_string(),
            provider: provider.to_string(),
            mt_ruen_path: mt_ruen_path.to_string(),
            mt_enru_path: mt_enru_path.to_string(),
        }
    }

    /// The Groq API key.
    pub fn groq_key(&self) -> (k: &str)
        ensures
            k@ == self@.groq_key,
    {
        self.groq_key.as_str()
    }

    /// The Yandex Cloud API key.
    pub fn yandex_key(&self) -> (k: &str)
        ensures
            k@ == self@.yandex_key,
    {
        self.yandex_key.as_str()
    }

    /// The Yandex Cloud folder.
    pub fn yandex_folder_id(&self) -> (k: &str)
        ensures
            k@ == self@.yandex_folder_id,
    {
        self.yandex_folder_id.as_str()
    }

    /// The LiteLLM server.
    pub fn litellm_base_url(&self) -> (k: &str)
        ensures
            k@ == self@.litellm_base_url,
    {
        self.litellm_base_url.as_str()
    }

    /// The LiteLLM API key.
    pub fn litellm_api_key(&self) -> (k: &str)
        ensures
            k@ == self@.litellm_api_key,
    {
        self.litellm_api_key.as_str()
    }

    /// The LiteLLM model.
    pub fn litellm_model(&self) -> (k: &str)
        ensures
            k@ == self@.litellm_model,
    {
        self.litellm_model.as_str()
    }

    /// The path of a local translation model.
    pub fn mt_path(&self, m: MtModel) -> (k: &str)
        ensures
            k@ == match m {
                MtModel::RuEn => self@.mt_ruen_path,
                MtModel::EnRu => self@.mt_enru_path,
            },
    {
        match m {
            MtModel::RuEn => self.mt_ruen_path.as_str(),
            MtModel::EnRu => self.mt_enru_path.as_str(),
        }
    }

    /// How `text` is to be translated in `direction`: nothing for a blank
    /// text; the configured provider when it has credentials ("groq",
    /// "yandex", "litellm"); a local model for Russian↔English ("local_mt");
    /// otherwise every provider with credentials at once.
    pub fn plan(&self, text: &str, direction: &TranslationDirection) -> (p: TranslationPlan)
        ensures
            plan_view(p) == plan_spec(self@, text@, direction.from_code@, direction.to_code@),
    {
        if crate::text::is_blank_str(text) {
            return TranslationPlan::Empty;
        }
        let groq_ok = crate::text::utf8_len_exceeds(self.groq_key.as_str(), 4);
        let yandex_ok = crate::text::utf8_len_exceeds(self.yandex_key.as_str(), 4);
        let litellm_ok = crate::text::utf8_len_exceeds(self.litellm_api_key.as_str(), 2);
        let p = self.provider.as_str();
        if str_eq(p, "groq") {
            if groq_ok { TranslationPlan::Groq } else { fail("Groq selected but no valid API key") }
        } else if str_eq(p, "yandex") {
            if yandex_ok { TranslationPlan::Yandex } else { fail("Yandex selected but no valid API key") }
        } else if str_eq(p, "litellm") {
            if litellm_ok { TranslationPlan::LiteLlm } else { fail("LiteLLM selected but no valid API key") }
        } else if str_eq(p, "local_mt") {
            let from = direction.from_code.as_str();
            let to = direction.to_code.as_str();
            if str_eq(from, "ru") && str_eq(to, "en") {
                TranslationPlan::LocalMt(MtModel::RuEn)
            } else if str_eq(from, "en") && str_eq(to, "ru") {
                TranslationPlan::LocalMt(MtModel::EnRu)
            } else {
                let mut m = "Local MT not available for ".to_string();
                m.append(from);
                m.append("→");
                m.append(to);
                TranslationPlan::Fail(m)
            }
        } else {
            let l = litellm_ok && self.litellm_base_url.as_str().unicode_len() > 0;
            if !groq_ok && !l && !yandex_ok {
                fail("No valid API keys available for translation")
            } else {
                TranslationPlan::Hedge { groq: groq_ok, litellm: l, yandex: yandex_ok }
            }
        }
    }
}

/// One provider's answer in a hedged translation.
pub struct HedgeReply {
    pub provider: String,
    pub result: Result<String, String>,
}

/// Scanning the answers from `i` on, with `last` the latest error seen:
/// the first success with its provider, else the latest error, else "All
/// providers failed".
pub open spec fn first_success_from(rs: Seq<HedgeReply>, i: int, last: Option<Seq<char>>) -> Result<(Seq<char>, Seq<char>), Seq<char>>
    decreases rs.len() - i,
{
    if i < 0 || i >= rs.len() {
        match last {
            Some(e) => Err(e),
            None => Err("All providers failed"@),
        }
    } else {
        match rs[i].result {
            Ok(t) => Ok((t@, rs[i].provider@)),
            Err(e) => first_success_from(rs, i + 1, Some(e@)),
        }
    }
}

/// Chooses what a translation asked of several providers at once returns, from the answers in order of
/// arrival: the first success with its provider, else the last error.
pub fn first_success(replies: Vec<HedgeReply>) -> (r: Result<(String, String), String>)
    ensures
        match r {
            Ok((t, p)) => first_success_from(replies@, 0, None) == Ok::<(Seq<char>, Seq<char>), Seq<char>>((t@, p@)),
            Err(e) => first_success_from(replies@, 0, None) == Err::<(Seq<char>, Seq<char>), Seq<char>>(e@),
        },
{
    let mut last_err: Option<String> = None;
    let mut i: usize = 0;
    while i < replies.len()
        invariant
            i <= replies.len(),
            first_success_from(replies@, 0, None) == first_success_from(
                replies@,
                i as int,
                match last_err {
                    Some(e) => Some(e@),
                    None => None,
                },
            ),
        decreases replies.len() - i,
    {
        match &replies[i] {
            HedgeReply { provider, result: Ok(t) } => {
                return Ok((t.clone(), provider.clone()));
            },
            HedgeReply { provider: _, result: Err(e) } => {
                last_err = Some(e.clone());
            },
        }
        i += 1;
    }
    match last_err {
        Some(e) => Err(e),
        None => Err("All providers failed".to_string()),
    }
}

} // verus!

verus! {

/// `s` without its trailing `c` characters (`str::trim_end_matches(c)`).
pub open spec fn strip_trailing(s: Seq<char>, c: char) -> Seq<char>
    decreases s.len(),
{
    if s.len() > 0 && s.last() == c { strip_trailing(s.drop_last(), c) } else { s }
}

proof fn lemma_strip_trailing_take(s: Seq<char>, c: char, j: int)
    requires
        0 <= j <= s.len(),
        forall|k: int| j <= k < s.len() ==> #[trigger] s[k] == c,
    ensures
        strip_trailing(s, c) == strip_trailing(s.take(j), c),
    decreases s.len() - j,
{
    if j < s.len() {
        assert(s.last() == c);
        assert(s.take(s.len() - 1) == s.drop_last());
        lemma_strip_trailing_take(s.drop_last(), c, j);
        assert(s.drop_last().take(j) == s.take(j));
    } else {
        assert(s.take(j) == s);
    }
}

/// The instruction that makes a chat model a translator from `from` to `to`.
pub open spec fn base_prompt(from: Seq<char>, to: Seq<char>) -> Seq<char> {
    "You are a machine translation API. Your ONLY output is the "@ + to + " translation of the user's "@ + from
        + " text. No explanations. No greetings. No disclaimers. Just the translation, word for word."@
}

/// Builds the translator instruction from `from` to `to`.
pub fn translation_prompt(from: &str, to: &str) -> (p: String)
    ensures
        p@ == base_prompt(from@, to@),
{
    let mut p = "You are a machine translation API. Your ONLY output is the ".to_string();
    p.append(to);
    p.append(" translation of the user's ");
    p.append(from);
    p.append(" text. No explanations. No greetings. No disclaimers. Just the translation, word for word.");
    p
}

/// The Groq chat-completions endpoint.
pub const GROQ_URL: &'static str = "https://api.groq.com/openai/v1/chat/completions";

/// The Groq model used for translation.
pub const GROQ_MODEL: &'static str = "llama-3.3-70b-versatile";

/// The token limit of a Groq translation.
pub const GROQ_MAX_TOKENS: u32 = 40;

/// The token limit of a LiteLLM translation.
pub const LITELLM_MAX_TOKENS: u32 = 128;

/// The Groq instruction: the translator instruction between the languages'
/// names, followed by two Russian-to-English examples.
pub fn groq_prompt(direction: &TranslationDirection) -> (p: String)
    ensures
        p@ == base_prompt(direction.from_name@, direction.to_name@)
            + "\nExamples:\nUser: привет как дела\nAssistant: hello how are you\nUser: мне нужна помощь\nAssistant: i need help"@,
{
    let mut p = translation_prompt(direction.from_name.as_str(), direction.to_name.as_str());
    p.append("\nExamples:\nUser: привет как дела\nAssistant: hello how are you\nUser: мне нужна помощь\nAssistant: i need help");
    p
}

/// The value of an `Authorization` header carrying a bearer token.
pub fn bearer(token: &str) -> (h: String)
    ensures
        h@ == "Bearer "@ + token@,
{
    let mut h = "Bearer ".to_string();
    h.append(token);
    h
}

/// Connection settings for an OpenAI-compatible LiteLLM server.
pub struct LiteLlmTranslator {
    pub base_url: String,
    pub api_key: String,
    pub model: String,
}

impl LiteLlmTranslator {
    /// Settings for the server at `base_url` (trailing slashes dropped).
    pub fn new(base_url: &str, api_key: &str, model: &str) -> (t: Self)
        ensures
            t.base_url@ == strip_trailing(base_url@, '/'),
            t.api_key@ == api_key@,
            t.model@ == model@,
    {
        let v = crate::text::chars_of(base_url);
        let mut j: usize = v.len();
        while j > 0 && v[j - 1] == '/'
            invariant
                v@ == base_url@,
                j <= v.len(),
                forall|k: int| j <= k < v.len() ==> #[trigger] v@[k] == '/',
            decreases j,
        {
            j -= 1;
        }
        proof {
            lemma_strip_trailing_take(v@, '/', j as int);
            let t = v@.take(j as int);
            if j > 0 {
                assert(t.last() == v@[j - 1]);
            }
            assert(strip_trailing(t, '/') == t);
            assert(t == v@.subrange(0, j as int));
        }
        LiteLlmTranslator {
            base_url: crate::text::string_of_range(&v, 0, j),
            api_key: api_key.to_string(),
            model: model.to_string(),
        }
    }

    /// The chat-completions endpoint of the server.
    pub fn completions_url(&self) -> (u: String)
        ensures
            u@ == self.base_url@ + "/chat/completions"@,
    {
        let mut u = self.base_url.clone();
        u.append("/chat/completions");
        u
    }
}

/// The Yandex Translate endpoint.
pub const YANDEX_TRANSLATE_URL: &'static str = "https://translate.api.cloud.yandex.net/translate/v2/translate";

/// Credentials for Yandex Translate.
pub struct YandexTranslator {
    pub api_key: String,
    pub folder_id: String,
}

impl YandexTranslator {
    /// Credentials for Yandex Translate.
    pub fn new(api_key: &str, folder_id: &str) -> (t: Self)
        ensures
            t.api_key@ == api_key@,
            t.folder_id@ == folder_id@,
    {
        YandexTranslator { api_key: api_key.to_string(), folder_id: folder_id.to_string() }
    }

    /// Whether `text` needs a request: a blank text translates to the empty text.
    pub fn needs_request(text: &str) -> (b: bool)
        ensures
            b == (trim(text@).len() != 0),
    {
        !crate::text::is_blank_str(text)
    }

    /// The error for an unsuccessful response.
    pub fn error_message(status: &str, body: &str) -> (m: String)
        ensures
            m@ == "Yandex error "@ + status@ + ": "@ + body@,
    {
        let mut m = "Yandex error ".to_string();
        m.append(status);
        m.append(": ");
        m.append(body);
        m
    }
}

} // verus!

verus! {

/// A blank text is never sent anywhere: its plan is empty.
pub proof fn law_plan_blank(v: TranslationEngineView, text: Seq<char>, from: Seq<char>, to: Seq<char>)
    requires
        crate::text::is_blank(text),
    ensures
        plan_spec(v, text, from, to) == PlanView::Empty,
{
    crate::text::lemma_trim_empty_iff_blank(text);
}

/// With one provider selected, a text goes to that provider exactly when the
/// provider's own credential is long enough (Groq and Yandex keys of more than
/// 4 bytes, a LiteLLM key of more than 2), whatever the other credentials are;
/// otherwise the plan fails with that provider's message.
pub proof fn law_plan_selected_provider(v: TranslationEngineView, text: Seq<char>, from: Seq<char>, to: Seq<char>)
    requires
        !crate::text::is_blank(text),
    ensures
        v.provider == "groq"@ ==> ((plan_spec(v, text, from, to) == PlanView::Groq) == (crate::text::utf8_len(
            v.groq_key,
        ) > 4)),
        v.provider == "groq"@ && crate::text::utf8_len(v.groq_key) <= 4 ==> plan_spec(v, text, from, to)
            == PlanView::Fail("Groq selected but no valid API key"@),
        v.provider == "yandex"@ ==> ((plan_spec(v, text, from, to) == PlanView::Yandex) == (crate::text::utf8_len(
            v.yandex_key,
        ) > 4)),
        v.provider == "yandex"@ && crate::text::utf8_len(v.yandex_key) <= 4 ==> plan_spec(v, text, from, to)
            == PlanView::Fail("Yandex selected but no valid API key"@),
        v.provider == "litellm"@ ==> ((plan_spec(v, text, from, to) == PlanView::LiteLlm) == (crate::text::utf8_len(
            v.litellm_api_key,
        ) > 2)),
        v.provider == "litellm"@ && crate::text::utf8_len(v.litellm_api_key) <= 2 ==> plan_spec(v, text, from, to)
            == PlanView::Fail("LiteLLM selected but no valid API key"@),
{
    crate::text::lemma_trim_empty_iff_blank(text);
    reveal_strlit("groq");
    reveal_strlit("yandex");
    reveal_strlit("litellm");
    reveal_strlit("local_mt");
    assert("groq"@.len() == 4 && "yandex"@.len() == 6 && "litellm"@.len() == 7 && "local_mt"@.len() == 8);
}

/// The local model translates Russian to English and English to Russian and
/// nothing else.
pub proof fn law_plan_local_model(v: TranslationEngineView, text: Seq<char>, from: Seq<char>, to: Seq<char>)
    requires
        !crate::text::is_blank(text),
        v.provider == "local_mt"@,
    ensures
        from == "ru"@ && to == "en"@ ==> plan_spec(v, text, from, to) == PlanView::LocalMt(MtModel::RuEn),
        from == "en"@ && to == "ru"@ ==> plan_spec(v, text, from, to) == PlanView::LocalMt(MtModel::EnRu),
        !(from == "ru"@ && to == "en"@) && !(from == "en"@ && to == "ru"@) ==> plan_spec(v, text, from, to)
            == PlanView::Fail("Local MT not available for "@ + from + "→"@ + to),
{
    crate::text::lemma_trim_empty_iff_blank(text);
    reveal_strlit("groq");
    reveal_strlit("yandex");
    reveal_strlit("litellm");
    reveal_strlit("local_mt");
    reveal_strlit("en");
    reveal_strlit("ru");
    assert("en"@[0] != "ru"@[0]);
    assert("groq"@.len() == 4 && "yandex"@.len() == 6 && "litellm"@.len() == 7 && "local_mt"@.len() == 8);
}

/// With no single provider selected, every provider with credentials is asked
/// at once (LiteLLM only with a server set), and the plan fails when none has them.
pub proof fn law_plan_hedge(v: TranslationEngineView, text: Seq<char>, from: Seq<char>, to: Seq<char>)
    requires
        !crate::text::is_blank(text),
        v.provider != "groq"@,
        v.provider != "yandex"@,
        v.provider != "litellm"@,
        v.provider != "local_mt"@,
    ensures
        ({
            let g = crate::text::utf8_len(v.groq_key) > 4;
            let l = crate::text::utf8_len(v.litellm_api_key) > 2 && v.litellm_base_url.len() > 0;
            let y = crate::text::utf8_len(v.yandex_key) > 4;
            &&& (g || l || y) ==> plan_spec(v, text, from, to) == (PlanView::Hedge { groq: g, litellm: l, yandex: y })
            &&& !(g || l || y) ==> plan_spec(v, text, from, to) == PlanView::Fail(
                "No valid API keys available for translation"@,
            )
        }),
{
    crate::text::lemma_trim_empty_iff_blank(text);
}

proof fn lemma_first_ok(rs: Seq<HedgeReply>, s: int, i: int, last: Option<Seq<char>>)
    requires
        0 <= s <= i < rs.len(),
        rs[i].result is Ok,
        forall|j: int| s <= j < i ==> (#[trigger] rs[j].result) is Err,
    ensures
        first_success_from(rs, s, last) == Ok::<(Seq<char>, Seq<char>), Seq<char>>((rs[i].result->Ok_0@, rs[i].provider@)),
    decreases i - s,
{
    if s < i {
        let e = rs[s].result->Err_0;
        lemma_first_ok(rs, s + 1, i, Some(e@));
    }
}

proof fn lemma_all_err(rs: Seq<HedgeReply>, s: int, last: Option<Seq<char>>)
    requires
        0 <= s < rs.len(),
        forall|j: int| s <= j < rs.len() ==> (#[trigger] rs[j].result) is Err,
    ensures
        first_success_from(rs, s, last) == Err::<(Seq<char>, Seq<char>), Seq<char>>(rs[rs.len() - 1].result->Err_0@),
    decreases rs.len() - s,
{
    let e = rs[s].result->Err_0;
    if s + 1 < rs.len() {
        lemma_all_err(rs, s + 1, Some(e@));
    } else {
        assert(first_success_from(rs, s + 1, Some(e@)) == Err::<(Seq<char>, Seq<char>), Seq<char>>(e@));
    }
}

/// A hedged translation returns the first success in order of arrival with the
/// provider that made it; when every provider failed, the error of the last
/// one; with no answer at all, "All providers failed".
pub proof fn law_first_success(rs: Seq<HedgeReply>, i: int)
    ensures
        0 <= i < rs.len() && rs[i].result is Ok && (forall|j: int| 0 <= j < i ==> (#[trigger] rs[j].result) is Err)
            ==> first_success_from(rs, 0, None) == Ok::<(Seq<char>, Seq<char>), Seq<char>>((
            rs[i].result->Ok_0@,
            rs[i].provider@,
        )),
        rs.len() > 0 && (forall|j: int| 0 <= j < rs.len() ==> (#[trigger] rs[j].result) is Err) ==> first_success_from(
            rs,
            0,
            None,
        ) == Err::<(Seq<char>, Seq<char>), Seq<char>>(rs[rs.len() - 1].result->Err_0@),
        rs.len() == 0 ==> first_success_from(rs, 0, None) == Err::<(Seq<char>, Seq<char>), Seq<char>>(
            "All providers failed"@,
        ),
{
    if 0 <= i < rs.len() && rs[i].result is Ok && (forall|j: int| 0 <= j < i ==> (#[trigger] rs[j].result) is Err) {
        lemma_first_ok(rs, 0, i, None);
    }
    if rs.len() > 0 && (forall|j: int| 0 <= j < rs.len() ==> (#[trigger] rs[j].result) is Err) {
        lemma_all_err(rs, 0, None);
    }
}

/// A chat-completion request is retried after 1 s then 2 s for Groq and after
/// 0.5 s then 1 s for LiteLLM, and its errors read as the provider reports them.
pub proof fn law_chat_retry_policy(status: Seq<char>, body: Seq<char>, e: Seq<char>)
    ensures
        base_delay(ChatProvider::Groq) == 1000,
        base_delay(ChatProvider::LiteLlm) == 500,
        client_error_text(ChatProvider::Groq, status, body) == "Groq error "@ + status + ": "@ + body,
        client_error_text(ChatProvider::LiteLlm, status, body) == "LiteLLM error "@ + status + ": "@ + body,
        status_error_text(ChatProvider::Groq, status, body) == "Groq error "@ + status + ": "@ + body,
        status_error_text(ChatProvider::LiteLlm, status, body) == "[LITELLM] Error "@ + status + ": "@ + body,
        request_error_text(ChatProvider::Groq, e) == "❌ GROQ request failed: "@ + e,
        request_error_text(ChatProvider::LiteLlm, e) == "[LITELLM] Request failed: "@ + e,
        parse_error_text(ChatProvider::Groq, e) == "❌ GROQ parse error: "@ + e,
        parse_error_text(ChatProvider::LiteLlm, e) == "[LITELLM] Parse error: "@ + e,
        forall|c: u16| #[trigger] is_client_error(c) <==> 400 <= c && c < 500,
        MAX_ATTEMPTS == 3,
{
}

} // verus!
