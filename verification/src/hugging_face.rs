//! The parts of the model-hosting client that decide: its configuration, the
//! prompt for an Islamic answer, the pauses between retries, the reading of a
//! model's status, and the limiter of requests per minute.
use vstd::prelude::*;
use crate::clock::{instant_now, nanos_between};
use crate::religious_query::push_text;
use crate::text::{decimal, push_decimal, push_decimal_u64, push_str, string_from_chars, string_views, to_string};
use crate::types::{authenticity_name, AIServiceError, IslamicSource};

verus! {

/// Options of a request to the hosting service.
#[derive(Debug, Clone, Copy, PartialEq, Eq, Structural)]
pub struct RequestOptions {
    pub wait_for_model: bool,
    pub use_cache: bool,
}

impl Default for RequestOptions {
    /// Wait for the model, and use the cache.
    fn default() -> (r: Self)
        ensures
            r.wait_for_model && r.use_cache,
    {
        RequestOptions { wait_for_model: true, use_cache: true }
    }
}

/// A request for the embeddings of texts.
#[derive(Debug, Clone)]
pub struct EmbeddingRequest {
    pub inputs: Vec<String>,
    pub options: RequestOptions,
}

/// The request for the embeddings of `texts`: the model is waited for and the
/// cache used.
pub fn embedding_request(texts: Vec<String>) -> (r: EmbeddingRequest)
    ensures
        r.inputs@ == texts@,
        r.options.wait_for_model && r.options.use_cache,
{
    EmbeddingRequest { inputs: texts, options: RequestOptions { wait_for_model: true, use_cache: true } }
}

/// The options of a request for an Islamic answer: the model is waited for,
/// and the cache is not used, so that answers are fresh.
pub fn islamic_answer_options() -> (r: RequestOptions)
    ensures
        r.wait_for_model && !r.use_cache,
{
    RequestOptions { wait_for_model: true, use_cache: false }
}

/// The sequences that end the generation of an Islamic answer.
pub open spec fn islamic_stop_sequences() -> Seq<Seq<char>> {
    seq!["\n\n---"@, "المصادر:"@, "Sources:"@]
}

/// The stop sequences of an Islamic answer (see `islamic_stop_sequences`).
pub fn islamic_stop_sequences_vec() -> (r: Vec<String>)
    ensures
        string_views(r@) == islamic_stop_sequences(),
{
    let mut r: Vec<String> = Vec::new();
    push_text(&mut r, "\n\n---");
    push_text(&mut r, "المصادر:");
    push_text(&mut r, "Sources:");
    r
}

// ---------------------------------------------------------------------------
// Configuration
// ---------------------------------------------------------------------------

/// The configuration of the client.
#[derive(Debug, Clone)]
pub struct HuggingFaceConfig {
    pub api_key: String,
    pub base_url: String,
    pub timeout_seconds: u64,
    pub max_retries: u32,
    pub requests_per_minute: u32,
    pub default_model: String,
    pub embedding_model: String,
}

impl HuggingFaceConfig {
    /// The standard configuration with the given key: the inference endpoint,
    /// a timeout of thirty seconds, three tries, sixty requests a minute, and
    /// the standard models.
    pub fn with_api_key(api_key: String) -> (r: Self)
        ensures
            r.api_key@ == api_key@,
            r.base_url@ == "https://api-inference.huggingface.co"@,
            r.timeout_seconds == 30,
            r.max_retries == 3,
            r.requests_per_minute == 60,
            r.default_model@ == "microsoft/DialoGPT-medium"@,
            r.embedding_model@ == "sentence-transformers/paraphrase-multilingual-MiniLM-L12-v2"@,
    {
        HuggingFaceConfig {
            api_key,
            base_url: to_string("https://api-inference.huggingface.co"),
            timeout_seconds: 30,
            max_retries: 3,
            requests_per_minute: 60,
            default_model: to_string("microsoft/DialoGPT-medium"),
            embedding_model: to_string("sentence-transformers/paraphrase-multilingual-MiniLM-L12-v2"),
        }
    }
}

/// The refusal of a configuration without a key.
pub open spec fn missing_key_message() -> Seq<char> {
    "Hugging Face API key is required"@
}

/// A client can be made only with a key: an empty key is a configuration
/// error.
pub fn check_client_config(config: &HuggingFaceConfig) -> (r: Result<(), AIServiceError>)
    ensures
        config.api_key@.len() == 0 <==> r is Err,
        r matches Err(e) ==> (e matches AIServiceError::ConfigurationError(m) && m@ == missing_key_message()),
{
    let key = crate::text::chars_of(config.api_key.as_str());
    if key.len() == 0 {
        return Err(AIServiceError::ConfigurationError(to_string("Hugging Face API key is required")));
    }
    Ok(())
}

/// The address of a model at the service.
pub open spec fn model_url_spec(base_url: Seq<char>, model: Seq<char>) -> Seq<char> {
    base_url + "/models/"@ + model
}

/// The address of a model at the service (see `model_url_spec`).
pub fn model_url(base_url: &str, model: &str) -> (r: String)
    ensures
        r@ == model_url_spec(base_url@, model@),
{
    let mut v: Vec<char> = Vec::new();
    push_str(&mut v, base_url);
    push_str(&mut v, "/models/");
    push_str(&mut v, model);
    string_from_chars(&v)
}

// ---------------------------------------------------------------------------
// The prompt for an Islamic answer
// ---------------------------------------------------------------------------

/// The lines of the source at position `k` (counted from zero): its number,
/// reference and text, its author where known, and its authenticity.
pub open spec fn islamic_source_lines(k: nat, s: IslamicSource) -> Seq<char> {
    decimal(k + 1) + ". "@ + s.reference@ + " - "@ + s.text@ + "\n"@
        + match s.author {
            Some(a) => "   المؤلف: "@ + a@ + "\n"@,
            None => Seq::empty(),
        }
        + "   درجة الموثوقية: "@ + authenticity_name(s.authenticity) + "\n"@ + "\n"@
}

/// The lines of the sources, in order.
pub open spec fn islamic_sources_block(ss: Seq<IslamicSource>) -> Seq<char>
    decreases ss.len(),
{
    if ss.len() == 0 {
        Seq::empty()
    } else {
        islamic_sources_block(ss.drop_last()) + islamic_source_lines((ss.len() - 1) as nat, ss.last())
    }
}

/// The system line of the prompt.
pub open spec fn system_line() -> Seq<char> {
    "أنت مساعد ذكي متخصص في الشؤون الإسلامية. أجب على الأسئلة بناءً على المصادر الإسلامية الموثوقة المرفقة فقط.\n\n"@
}

/// The fixed instructions of the prompt.
pub open spec fn prompt_rules() -> Seq<char> {
    "تعليمات مهمة:\n"@ + "- أجب بناءً على المصادر المرفقة فقط\n"@ + "- لا تختلق آيات أو أحاديث\n"@
        + "- إذا لم تجد إجابة في المصادر، قل ذلك صراحة\n"@ + "- اذكر المصادر في نهاية الإجابة\n"@
        + "- استخدم لغة واضحة ومفهومة\n\n"@
}

/// The prompt for an Islamic answer: the system line, the context where there
/// is one, the sources where there are any, the instructions, and the question.
pub open spec fn islamic_prompt_spec(context: Seq<char>, question: Seq<char>, sources: Seq<IslamicSource>) -> Seq<char> {
    system_line()
        + (if context.len() > 0 { "السياق:\n"@ + context + "\n\n"@ } else { Seq::empty() })
        + (if sources.len() > 0 { "المصادر الموثوقة:\n"@ + islamic_sources_block(sources) } else { Seq::empty() })
        + prompt_rules()
        + "السؤال: "@ + question + "\n\nالإجابة: "@
}

/// Appends the lines of one source (see `islamic_source_lines`).
fn push_islamic_source_lines(v: &mut Vec<char>, k: usize, s: &IslamicSource)
    requires
        k < usize::MAX,
    ensures
        final(v)@ == old(v)@ + islamic_source_lines(k as nat, *s),
{
    push_decimal(v, k + 1);
    push_str(v, ". ");
    push_str(v, s.reference.as_str());
    push_str(v, " - ");
    push_str(v, s.text.as_str());
    push_str(v, "\n");
    let ghost mid = v@;
    match &s.author {
        Some(a) => {
            push_str(v, "   المؤلف: ");
            push_str(v, a.as_str());
            push_str(v, "\n");
        },
        None => {},
    }
    let ghost after = v@;
    assert(after =~= mid + match s.author {
        Some(a) => "   المؤلف: "@ + a@ + "\n"@,
        None => Seq::<char>::empty(),
    });
    push_str(v, "   درجة الموثوقية: ");
    push_str(v, s.authenticity.debug_name());
    push_str(v, "\n");
    push_str(v, "\n");
    assert(v@ =~= old(v)@ + islamic_source_lines(k as nat, *s));
}

/// The prompt for an Islamic answer (see `islamic_prompt_spec`).
pub fn build_islamic_prompt(context: &str, question: &str, sources: &Vec<IslamicSource>) -> (r: String)
    ensures
        r@ == islamic_prompt_spec(context@, question@, sources@),
{
    let mut v: Vec<char> = Vec::new();
    push_str(&mut v, "أنت مساعد ذكي متخصص في الشؤون الإسلامية. أجب على الأسئلة بناءً على المصادر الإسلامية الموثوقة المرفقة فقط.\n\n");
    let cs = crate::text::chars_of(context);
    if cs.len() > 0 {
        push_str(&mut v, "السياق:\n");
        push_str(&mut v, context);
        push_str(&mut v, "\n\n");
    }
    let ghost a = v@;
    assert(a =~= system_line() + (if context@.len() > 0 { "السياق:\n"@ + context@ + "\n\n"@ } else { Seq::empty() }));
    let ghost ss = sources@;
    if sources.len() > 0 {
        push_str(&mut v, "المصادر الموثوقة:\n");
        let ghost start = v@;
        let mut i: usize = 0;
        while i < sources.len()
            invariant
                i <= sources.len(),
                ss == sources@,
                v@ == start + islamic_sources_block(ss.take(i as int)),
            decreases sources.len() - i,
        {
            proof {
                assert(ss.take(i + 1).drop_last() =~= ss.take(i as int));
                assert(ss.take(i + 1).last() == ss[i as int]);
            }
            push_islamic_source_lines(&mut v, i, &sources[i]);
            assert(v@ =~= start + islamic_sources_block(ss.take(i + 1)));
            i = i + 1;
        }
        assert(ss.take(sources.len() as int) =~= ss);
    }
    let ghost b = v@;
    assert(b =~= a + (if ss.len() > 0 { "المصادر الموثوقة:\n"@ + islamic_sources_block(ss) } else { Seq::empty() }));
    push_str(&mut v, "تعليمات مهمة:\n");
    push_str(&mut v, "- أجب بناءً على المصادر المرفقة فقط\n");
    push_str(&mut v, "- لا تختلق آيات أو أحاديث\n");
    push_str(&mut v, "- إذا لم تجد إجابة في المصادر، قل ذلك صراحة\n");
    push_str(&mut v, "- اذكر المصادر في نهاية الإجابة\n");
    push_str(&mut v, "- استخدم لغة واضحة ومفهومة\n\n");
    push_str(&mut v, "السؤال: ");
    push_str(&mut v, question);
    push_str(&mut v, "\n\nالإجابة: ");
    assert(v@ =~= islamic_prompt_spec(context@, question@, ss));
    string_from_chars(&v)
}

// ---------------------------------------------------------------------------
// Retries and the status of a model
// ---------------------------------------------------------------------------

/// The pause after a failed try, in milliseconds: one second per try made,
/// and none after the last try.
pub open spec fn retry_pause_spec(attempt: nat, max_retries: nat) -> Option<nat> {
    if attempt < max_retries { Some(1000 * attempt) } else { None }
}

/// The pause after failed try number `attempt` (see `retry_pause_spec`).
pub fn retry_pause_ms(attempt: u32, max_retries: u32) -> (r: Option<u64>)
    ensures
        match retry_pause_spec(attempt as nat, max_retries as nat) {
            Some(p) => r == Some(p as u64),
            None => r is None,
        },
{
    if attempt < max_retries {
        Some(1000 * (attempt as u64))
    } else {
        None
    }
}

/// What a status reply says of a model.
#[derive(Debug, Clone, Copy, PartialEq, Eq, Structural)]
pub enum ModelStatus {
    Ready,
    Loading,
    Failed,
}

/// A successful reply means the model is ready; a reply of 503 that it is
/// still loading; any other reply is a failure.
pub open spec fn model_status_spec(is_success: bool, code: u16) -> ModelStatus {
    if is_success {
        ModelStatus::Ready
    } else if code == 503 {
        ModelStatus::Loading
    } else {
        ModelStatus::Failed
    }
}

/// What a status reply says of a model (see `model_status_spec`).
pub fn model_status(is_success: bool, code: u16) -> (r: ModelStatus)
    ensures
        r == model_status_spec(is_success, code),
{
    if is_success {
        ModelStatus::Ready
    } else if code == 503 {
        ModelStatus::Loading
    } else {
        ModelStatus::Failed
    }
}

/// The error when a model is not ready in time.
pub open spec fn model_wait_message(model: Seq<char>, seconds: u64) -> Seq<char> {
    "Model "@ + model + " did not become ready within "@ + decimal(seconds as nat) + " seconds"@
}

/// The error when a model is not ready within `seconds` (see
/// `model_wait_message`).
pub fn model_wait_error(model: &str, seconds: u64) -> (r: AIServiceError)
    ensures
        r matches AIServiceError::ExternalAPIError(m) && m@ == model_wait_message(model@, seconds),
{
    let mut v: Vec<char> = Vec::new();
    push_str(&mut v, "Model ");
    push_str(&mut v, model);
    push_str(&mut v, " did not become ready within ");
    push_decimal_u64(&mut v, seconds);
    push_str(&mut v, " seconds");
    AIServiceError::ExternalAPIError(string_from_chars(&v))
}

// ---------------------------------------------------------------------------
// The limiter of requests per minute
// ---------------------------------------------------------------------------

/// The length of the limiter's window, in nanoseconds.
pub const WINDOW_NANOS: u128 = 60_000_000_000;

/// What the limiter decides on a request.
#[derive(Debug, Clone, Copy, PartialEq, Eq, Structural)]
pub enum RateDecision {
    /// The request goes ahead at once.
    Proceed,
    /// The request waits this many nanoseconds, until the window ends.
    Wait { nanos: u128 },
}

/// The limiter's counter and decision on a request, `elapsed` nanoseconds
/// after its window began: a window that has run its course starts again with
/// no requests; a full window makes the request wait for its end; else the
/// request is counted and goes ahead. The flag says whether the window starts
/// again now.
pub open spec fn rate_step_spec(requests_per_minute: u32, count: u32, elapsed: u128) -> (bool, nat, RateDecision) {
    let restart = elapsed >= WINDOW_NANOS;
    let count0: nat = if restart { 0 } else { count as nat };
    let elapsed0: nat = if restart { 0 } else { elapsed as nat };
    if count0 >= requests_per_minute {
        (restart, count0, RateDecision::Wait { nanos: (WINDOW_NANOS - elapsed0) as u128 })
    } else {
        (restart, count0 + 1, RateDecision::Proceed)
    }
}

/// Limits the requests made in each minute.
#[derive(Debug, Clone)]
pub struct RateLimiter {
    pub requests_per_minute: u32,
    pub last_reset: std::time::Instant,
    pub current_count: u32,
}

impl RateLimiter {
    /// A limiter whose window begins now, with no request counted.
    pub fn new(requests_per_minute: u32) -> (r: Self)
        ensures
            r.requests_per_minute == requests_per_minute,
            r.current_count == 0,
    {
        RateLimiter { requests_per_minute, last_reset: instant_now(), current_count: 0 }
    }

    /// Decides on a request made at `now`, `elapsed` nanoseconds after the
    /// window began (see `rate_step_spec`); a window that starts again begins at
    /// `now`.
    pub fn check_request_at(&mut self, now: std::time::Instant, elapsed: u128) -> (r: RateDecision)
        ensures
            ({
                let (restart, count, decision) = rate_step_spec(
                    old(self).requests_per_minute,
                    old(self).current_count,
                    elapsed,
                );
                &&& r == decision
                &&& final(self).current_count == count
                &&& final(self).requests_per_minute == old(self).requests_per_minute
                &&& final(self).last_reset == if restart { now } else { old(self).last_reset }
            }),
            old(self).current_count <= old(self).requests_per_minute
                ==> final(self).current_count <= final(self).requests_per_minute,
    {
        let mut elapsed0 = elapsed;
        if elapsed >= WINDOW_NANOS {
            self.last_reset = now;
            self.current_count = 0;
            elapsed0 = 0;
        }
        if self.current_count >= self.requests_per_minute {
            RateDecision::Wait { nanos: WINDOW_NANOS - elapsed0 }
        } else {
            self.current_count = self.current_count + 1;
            RateDecision::Proceed
        }
    }

    /// Decides on a request made now (see `check_request_at`); the time since the
    /// window began is read from the clock.
    pub fn check_request(&mut self) -> (r: RateDecision)
        ensures
            final(self).requests_per_minute == old(self).requests_per_minute,
            old(self).current_count <= old(self).requests_per_minute
                ==> final(self).current_count <= final(self).requests_per_minute,
            exists|elapsed: u128| {
                let (restart, count, decision) = #[trigger] rate_step_spec(
                    old(self).requests_per_minute,
                    old(self).current_count,
                    elapsed,
                );
                r == decision && final(self).current_count == count
            },
    {
        let now = instant_now();
        let elapsed = nanos_between(&self.last_reset, &now);
        let r = self.check_request_at(now, elapsed);
        assert({
            let (restart, count, decision) = rate_step_spec(old(self).requests_per_minute, old(self).current_count, elapsed);
            r == decision && self.current_count == count
        });
        r
    }

    /// After a request has waited for the end of the window: a new window
    /// begins at `now`, with that request counted.
    pub fn finish_wait(&mut self, now: std::time::Instant)
        ensures
            final(self).last_reset == now,
            final(self).current_count == 1,
            final(self).requests_per_minute == old(self).requests_per_minute,
    {
        self.last_reset = now;
        self.current_count = 1;
    }
}

} // verus!
