//! The decisions of the worker, as pure steps.
//!
//! The surrounding runtime performs the I/O: it pulls a message, looks the
//! key up in the cache store, calls the backend, publishes, acknowledges.
//! Each function here takes what the last such action returned and says
//! exactly what must happen next. Per request the order is fixed: cache
//! lookup, then (on a miss) one backend call, then cache store and
//! publication, then acknowledgment.

use vstd::prelude::*;
use vstd::utf8::{decode_utf8, valid_utf8};

use crate::key::{request_cache_key, spec_request_cache_key};
use crate::msg::{
    MemeError, MemeRequest, MemeResponse, SpecMemeError, SpecMemeRequest, SpecMemeResponse,
    generate_uuid, normalize_with_id, spec_normalize,
};
use crate::parse::{parse_request, spec_parse_request};
use crate::policy::{image_size, select_model_url, spec_image_size, spec_model_url};
use crate::prompt::{full_prompt, spec_full_prompt};
use crate::ser::{backend_body, spec_backend_body};
use crate::text::{chars_of, spec_u64_dec, u64_to_dec};
use vstd::string::StringExecFns;

verus! {

/// Seconds the backend call may take before it is abandoned; shorter than
/// any overall deadline of the surrounding runtime.
pub const GENERATION_TIMEOUT_SECS: u64 = 60;

/// The counters the worker reports.
#[derive(Debug, Clone, Copy, PartialEq, Eq, Structural)]
pub enum Counter {
    Requests,
    Success,
    Errors,
    CacheHits,
    CacheMisses,
    CacheErrors,
}

/// The metric name of a counter.
pub open spec fn spec_metric_name(c: Counter) -> Seq<char> {
    match c {
        Counter::Requests => "meme_generator_requests_total"@,
        Counter::Success => "meme_generator_success_total"@,
        Counter::Errors => "meme_generator_errors_total"@,
        Counter::CacheHits => "meme_generator_cache_hits_total"@,
        Counter::CacheMisses => "meme_generator_cache_misses_total"@,
        Counter::CacheErrors => "meme_generator_cache_errors_total"@,
    }
}

impl Counter {
    /// The name under which this counter is reported.
    pub fn metric_name(&self) -> (r: &'static str)
        ensures
            r@ == spec_metric_name(*self),
    {
        match self {
            Counter::Requests => "meme_generator_requests_total",
            Counter::Success => "meme_generator_success_total",
            Counter::Errors => "meme_generator_errors_total",
            Counter::CacheHits => "meme_generator_cache_hits_total",
            Counter::CacheMisses => "meme_generator_cache_misses_total",
            Counter::CacheErrors => "meme_generator_cache_errors_total",
        }
    }
}

/// The histogram name for whole-request processing time.
pub fn processing_histogram_name() -> (r: &'static str)
    ensures
        r@ == "meme_generator_processing_duration_seconds"@,
{
    "meme_generator_processing_duration_seconds"
}

/// The histogram name for backend generation time.
pub fn generation_histogram_name() -> (r: &'static str)
    ensures
        r@ == "meme_generator_generation_duration_seconds"@,
{
    "meme_generator_generation_duration_seconds"
}

/// Relies on `std::str::from_utf8`: `Some` exactly on valid UTF-8, yielding
/// its decoding.
#[verifier::external_body]
fn bytes_as_str(v: &[u8]) -> (r: Option<&str>)
    ensures
        r is Some <==> valid_utf8(v@),
        r is Some ==> r.unwrap()@ == decode_utf8(v@),
{
    std::str::from_utf8(v).ok()
}

/// What the `base64` crate's standard padded engine encodes given bytes to.
pub uninterp spec fn base64_chars(bytes: Seq<u8>) -> Seq<char>;

/// Relies on the `base64` crate's `STANDARD` engine `encode`: the output
/// depends on the input bytes alone, four characters for every started
/// group of three input bytes.
#[verifier::external_body]
fn encode_base64(bytes: &[u8]) -> (r: String)
    ensures
        r@ == base64_chars(bytes@),
        r@.len() == 4 * ((bytes@.len() + 2) / 3),
{
    base64::Engine::encode(&base64::engine::general_purpose::STANDARD, bytes)
}

/// What the consumer loop does with one received message.
pub enum ConsumeAction {
    /// The payload is malformed: acknowledge it — it would never parse on
    /// redelivery either — and process nothing.
    AckAndSkip,
    /// The payload parsed: count the request and process it in a task of
    /// its own.
    Dispatch(MemeRequest),
}

/// Mathematical image of a [`ConsumeAction`].
pub enum SpecConsumeAction {
    AckAndSkip,
    Dispatch(SpecMemeRequest),
}

impl View for ConsumeAction {
    type V = SpecConsumeAction;

    open spec fn view(&self) -> SpecConsumeAction {
        match self {
            ConsumeAction::AckAndSkip => SpecConsumeAction::AckAndSkip,
            ConsumeAction::Dispatch(r) => SpecConsumeAction::Dispatch(r@),
        }
    }
}

/// What the consumer loop must do with a payload, given the identifier that
/// would replace an absent `id`: dispatch the parsed, normalized request,
/// or acknowledge and skip a payload that is not valid UTF-8, not the JSON
/// object of the grammar, or without a prompt.
pub open spec fn spec_consume(bytes: Seq<u8>, fresh_id: Seq<char>) -> SpecConsumeAction {
    if !valid_utf8(bytes) {
        SpecConsumeAction::AckAndSkip
    } else {
        match spec_parse_request(decode_utf8(bytes)) {
            None => SpecConsumeAction::AckAndSkip,
            Some(f) => match spec_normalize(f, fresh_id) {
                None => SpecConsumeAction::AckAndSkip,
                Some(r) => SpecConsumeAction::Dispatch(r),
            },
        }
    }
}

/// Decides one consumer step for a given replacement identifier.
pub fn consume_step(payload: &[u8], fresh_id: String) -> (r: ConsumeAction)
    ensures
        r@ == spec_consume(payload@, fresh_id@),
{
    match bytes_as_str(payload) {
        None => ConsumeAction::AckAndSkip,
        Some(s) => {
            let cs = chars_of(s);
            match parse_request(&cs) {
                None => ConsumeAction::AckAndSkip,
                Some(f) => match normalize_with_id(f, fresh_id) {
                    None => ConsumeAction::AckAndSkip,
                    Some(req) => ConsumeAction::Dispatch(req),
                },
            }
        },
    }
}

/// Decides one consumer step, drawing a fresh identifier for a request that
/// carries none. Whether the message is dispatched or skipped never depends
/// on the drawn identifier; only the `id` field of a dispatched request can.
pub fn consume_message(payload: &[u8]) -> (r: ConsumeAction)
    ensures
        exists|fid: Seq<char>| #[trigger] spec_consume(payload@, fid) == r@ && fid.len() == 36,
{
    let fresh_id = generate_uuid();
    let ghost fid = fresh_id@;
    let r = consume_step(payload, fresh_id);
    proof {
        assert(spec_consume(payload@, fid) == r@ && fid.len() == 36);
    }
    r
}

/// What the cache lookup came back with.
pub enum CacheLookup {
    /// The key was present: its stored text-encoded image.
    Hit(String),
    /// The key was absent.
    Miss,
    /// The store could not be asked; treated as a miss, counted apart.
    Unavailable,
}

/// Mathematical image of a [`CacheLookup`].
pub enum SpecCacheLookup {
    Hit(Seq<char>),
    Miss,
    Unavailable,
}

impl View for CacheLookup {
    type V = SpecCacheLookup;

    open spec fn view(&self) -> SpecCacheLookup {
        match self {
            CacheLookup::Hit(s) => SpecCacheLookup::Hit(s@),
            CacheLookup::Miss => SpecCacheLookup::Miss,
            CacheLookup::Unavailable => SpecCacheLookup::Unavailable,
        }
    }
}

/// One bounded call the runtime must make to the generation backend.
pub struct BackendCall {
    pub url: String,
    pub body: String,
    pub width: u32,
    pub height: u32,
    pub timeout_secs: u64,
}

/// Mathematical image of a [`BackendCall`].
pub struct SpecBackendCall {
    pub url: Seq<char>,
    pub body: Seq<char>,
    pub width: u32,
    pub height: u32,
    pub timeout_secs: u64,
}

impl View for BackendCall {
    type V = SpecBackendCall;

    open spec fn view(&self) -> SpecBackendCall {
        SpecBackendCall {
            url: self.url@,
            body: self.body@,
            width: self.width,
            height: self.height,
            timeout_secs: self.timeout_secs,
        }
    }
}

/// What must happen after the cache lookup.
pub enum CachePlan {
    /// A hit: publish the cached image; no backend call is made.
    Respond(MemeResponse),
    /// A miss (or an unreachable store): make this one backend call.
    Generate(BackendCall),
}

/// Mathematical image of a [`CachePlan`].
pub enum SpecCachePlan {
    Respond(SpecMemeResponse),
    Generate(SpecBackendCall),
}

impl View for CachePlan {
    type V = SpecCachePlan;

    open spec fn view(&self) -> SpecCachePlan {
        match self {
            CachePlan::Respond(r) => SpecCachePlan::Respond(r@),
            CachePlan::Generate(c) => SpecCachePlan::Generate(c@),
        }
    }
}

/// The counter one cache lookup bumps.
pub open spec fn spec_cache_counter(lookup: SpecCacheLookup) -> Counter {
    match lookup {
        SpecCacheLookup::Hit(_) => Counter::CacheHits,
        SpecCacheLookup::Miss => Counter::CacheMisses,
        SpecCacheLookup::Unavailable => Counter::CacheErrors,
    }
}

/// The plan after one cache lookup: answer a hit from the cache at once;
/// otherwise call the selected model with the templated prompt and the
/// resolution of the request, under the fixed timeout.
pub open spec fn spec_cache_plan(
    req: SpecMemeRequest,
    lookup: SpecCacheLookup,
    configured: Seq<char>,
    now: u64,
) -> SpecCachePlan {
    match lookup {
        SpecCacheLookup::Hit(data) => SpecCachePlan::Respond(
            SpecMemeResponse {
                request_id: req.id,
                image_data: data,
                prompt: req.prompt,
                timestamp: now,
            },
        ),
        _ => SpecCachePlan::Generate(
            SpecBackendCall {
                url: spec_model_url(req.fast_mode, req.small_image, configured),
                body: spec_backend_body(
                    spec_full_prompt(req.prompt),
                    spec_image_size(req.small_image),
                ),
                width: spec_image_size(req.small_image),
                height: spec_image_size(req.small_image),
                timeout_secs: GENERATION_TIMEOUT_SECS as u64,
            },
        ),
    }
}

/// Decides what follows the cache lookup of one request. `configured` is
/// the configured quality-model endpoint; `now` stamps a hit's response.
pub fn after_cache(req: &MemeRequest, lookup: CacheLookup, configured: &str, now: u64) -> (r: (
    CachePlan,
    Counter,
))
    ensures
        r.0@ == spec_cache_plan(req@, lookup@, configured@, now),
        r.1 == spec_cache_counter(lookup@),
{
    match lookup {
        CacheLookup::Hit(data) => (
            CachePlan::Respond(
                MemeResponse {
                    request_id: req.id.clone(),
                    image_data: data,
                    prompt: req.prompt.clone(),
                    timestamp: now,
                },
            ),
            Counter::CacheHits,
        ),
        CacheLookup::Miss => (generate_plan(req, configured), Counter::CacheMisses),
        CacheLookup::Unavailable => (generate_plan(req, configured), Counter::CacheErrors),
    }
}

fn generate_plan(req: &MemeRequest, configured: &str) -> (r: CachePlan)
    ensures
        r@ == spec_cache_plan(req@, SpecCacheLookup::Miss, configured@, 0),
{
    let size = image_size(req.small_image);
    let wrapped = full_prompt(req.prompt.as_str());
    CachePlan::Generate(
        BackendCall {
            url: select_model_url(req.fast_mode, req.small_image, configured),
            body: backend_body(wrapped.as_str(), size),
            width: size,
            height: size,
            timeout_secs: GENERATION_TIMEOUT_SECS,
        },
    )
}

/// What the backend call came back with.
pub enum BackendOutcome {
    /// Success: the raw image bytes.
    Image(Vec<u8>),
    /// The backend answered with a non-success status and this body.
    HttpError { status: u16, body: String },
    /// The call itself failed (could not be sent, or timed out); the
    /// runtime's description of the failure.
    Transport { message: String },
}

/// Mathematical image of a [`BackendOutcome`].
pub enum SpecBackendOutcome {
    Image(Seq<u8>),
    HttpError { status: u16, body: Seq<char> },
    Transport { message: Seq<char> },
}

impl View for BackendOutcome {
    type V = SpecBackendOutcome;

    open spec fn view(&self) -> SpecBackendOutcome {
        match self {
            BackendOutcome::Image(b) => SpecBackendOutcome::Image(b@),
            BackendOutcome::HttpError { status, body } => SpecBackendOutcome::HttpError {
                status: *status,
                body: body@,
            },
            BackendOutcome::Transport { message } => SpecBackendOutcome::Transport {
                message: message@,
            },
        }
    }
}

/// One write the runtime must make to the cache store.
pub struct CacheWrite {
    pub key: String,
    pub value: String,
    pub ttl_secs: u64,
}

/// Mathematical image of a [`CacheWrite`].
pub struct SpecCacheWrite {
    pub key: Seq<char>,
    pub value: Seq<char>,
    pub ttl_secs: u64,
}

impl View for CacheWrite {
    type V = SpecCacheWrite;

    open spec fn view(&self) -> SpecCacheWrite {
        SpecCacheWrite { key: self.key@, value: self.value@, ttl_secs: self.ttl_secs }
    }
}

/// The one message a finished request publishes.
pub enum Publication {
    /// On the response channel.
    Success(MemeResponse),
    /// On the error channel.
    Failure(MemeError),
}

/// Mathematical image of a [`Publication`].
pub enum SpecPublication {
    Success(SpecMemeResponse),
    Failure(SpecMemeError),
}

impl View for Publication {
    type V = SpecPublication;

    open spec fn view(&self) -> SpecPublication {
        match self {
            Publication::Success(r) => SpecPublication::Success(r@),
            Publication::Failure(e) => SpecPublication::Failure(e@),
        }
    }
}

/// The identifier a publication carries.
pub open spec fn spec_publication_request_id(p: SpecPublication) -> Seq<char> {
    match p {
        SpecPublication::Success(r) => r.request_id,
        SpecPublication::Failure(e) => e.request_id,
    }
}

/// How one request ends: at most one cache write, exactly one publication,
/// one outcome counter, and the acknowledgment of the consumed message.
pub struct ProcessOutcome {
    pub cache_write: Option<CacheWrite>,
    pub publication: Publication,
    pub counter: Counter,
    pub ack: bool,
}

/// Mathematical image of a [`ProcessOutcome`].
pub struct SpecProcessOutcome {
    pub cache_write: Option<SpecCacheWrite>,
    pub publication: SpecPublication,
    pub counter: Counter,
    pub ack: bool,
}

impl View for ProcessOutcome {
    type V = SpecProcessOutcome;

    open spec fn view(&self) -> SpecProcessOutcome {
        SpecProcessOutcome {
            cache_write: match self.cache_write {
                Some(ref w) => Some(w@),
                None => None,
            },
            publication: self.publication@,
            counter: self.counter,
            ack: self.ack,
        }
    }
}

/// The error text published for a backend failure.
pub open spec fn spec_backend_error_message(status: u16, body: Seq<char>) -> Seq<char> {
    "Hugging Face API error ("@ + spec_u64_dec(status as nat) + "): "@ + body
}

/// Renders the error text for a backend answer with a non-success status.
pub fn backend_error_message(status: u16, body: &str) -> (r: String)
    ensures
        r@ == spec_backend_error_message(status, body@),
{
    let mut s = String::from_str("Hugging Face API error (");
    let d = u64_to_dec(status as u64);
    s.append(d.as_str());
    s.append("): ");
    s.append(body);
    proof {
        assert(s@ =~= spec_backend_error_message(status, body@));
    }
    s
}

/// How one request must end, given what the backend call came back with.
/// Success stores the encoded image under the request's key with the
/// configured expiry and publishes it; any failure publishes one error
/// carrying the request's identifier. Either way the message is then
/// acknowledged: a failure is terminal for this delivery attempt, never
/// retried by the worker itself.
pub open spec fn spec_generate_outcome(
    req: SpecMemeRequest,
    outcome: SpecBackendOutcome,
    now: u64,
    ttl_secs: u64,
) -> SpecProcessOutcome {
    match outcome {
        SpecBackendOutcome::Image(bytes) => SpecProcessOutcome {
            cache_write: Some(
                SpecCacheWrite {
                    key: spec_request_cache_key(req),
                    value: base64_chars(bytes),
                    ttl_secs,
                },
            ),
            publication: SpecPublication::Success(
                SpecMemeResponse {
                    request_id: req.id,
                    image_data: base64_chars(bytes),
                    prompt: req.prompt,
                    timestamp: now,
                },
            ),
            counter: Counter::Success,
            ack: true,
        },
        SpecBackendOutcome::HttpError { status, body } => SpecProcessOutcome {
            cache_write: None,
            publication: SpecPublication::Failure(
                SpecMemeError {
                    request_id: req.id,
                    error: spec_backend_error_message(status, body),
                    timestamp: now,
                },
            ),
            counter: Counter::Errors,
            ack: true,
        },
        SpecBackendOutcome::Transport { message } => SpecProcessOutcome {
            cache_write: None,
            publication: SpecPublication::Failure(
                SpecMemeError { request_id: req.id, error: message, timestamp: now },
            ),
            counter: Counter::Errors,
            ack: true,
        },
    }
}

/// Decides how one request ends after its backend call.
pub fn after_generate(req: &MemeRequest, outcome: BackendOutcome, now: u64, ttl_secs: u64) -> (r:
    ProcessOutcome)
    ensures
        r@ == spec_generate_outcome(req@, outcome@, now, ttl_secs),
{
    match outcome {
        BackendOutcome::Image(bytes) => {
            let data = encode_base64(bytes.as_slice());
            let data_copy = data.clone();
            ProcessOutcome {
                cache_write: Some(
                    CacheWrite { key: request_cache_key(req), value: data, ttl_secs },
                ),
                publication: Publication::Success(
                    MemeResponse {
                        request_id: req.id.clone(),
                        image_data: data_copy,
                        prompt: req.prompt.clone(),
                        timestamp: now,
                    },
                ),
                counter: Counter::Success,
                ack: true,
            }
        },
        BackendOutcome::HttpError { status, body } => ProcessOutcome {
            cache_write: None,
            publication: Publication::Failure(
                MemeError {
                    request_id: req.id.clone(),
                    error: backend_error_message(status, body.as_str()),
                    timestamp: now,
                },
            ),
            counter: Counter::Errors,
            ack: true,
        },
        BackendOutcome::Transport { message } => ProcessOutcome {
            cache_write: None,
            publication: Publication::Failure(
                MemeError { request_id: req.id.clone(), error: message, timestamp: now },
            ),
            counter: Counter::Errors,
            ack: true,
        },
    }
}

/// The counter a finished cache write bumps: none on success, the cache
/// error counter on a failed store — a failed write never fails the request.
pub fn cache_write_counter(write_succeeded: bool) -> (r: Option<Counter>)
    ensures
        r == (if write_succeeded {
            Option::<Counter>::None
        } else {
            Option::<Counter>::Some(Counter::CacheErrors)
        }),
{
    if write_succeeded {
        None
    } else {
        Some(Counter::CacheErrors)
    }
}

/// The error channel: the response channel's name with the fixed suffix.
pub fn error_subject(response_subject: &str) -> (r: String)
    ensures
        r@ == response_subject@ + ".error"@,
{
    let mut s = String::from_str(response_subject);
    s.append(".error");
    proof {
        assert(s@ =~= response_subject@ + ".error"@);
    }
    s
}

/// Law: whether a payload is dispatched or acknowledged away never depends
/// on the drawn replacement identifier; and a payload that is not valid
/// UTF-8, does not parse, or lacks a prompt is acknowledged away whatever
/// identifier was drawn, so no processing task is ever spawned for it.
pub proof fn lemma_consume_independent_of_fresh_id(bytes: Seq<u8>, f1: Seq<char>, f2: Seq<char>)
    ensures
        spec_consume(bytes, f1) is Dispatch <==> spec_consume(bytes, f2) is Dispatch,
        (!valid_utf8(bytes) || spec_parse_request(decode_utf8(bytes)) is None) ==> spec_consume(
            bytes,
            f1,
        ) == SpecConsumeAction::AckAndSkip,
{
}

/// Law: a cache hit is answered from the cache alone — the plan holds no
/// backend call — and the response echoes the request's identifier, its
/// prompt, and the cached bytes.
pub proof fn lemma_cache_hit_makes_no_backend_call(
    req: SpecMemeRequest,
    data: Seq<char>,
    configured: Seq<char>,
    now: u64,
)
    ensures
        ({
            let p = spec_cache_plan(req, SpecCacheLookup::Hit(data), configured, now);
            &&& p is Respond
            &&& p matches SpecCachePlan::Respond(resp) ==> resp.request_id == req.id
                && resp.image_data == data && resp.prompt == req.prompt && resp.timestamp == now
        }),
{
}

/// Law: a backend failure ends in exactly one publication — on the error
/// channel, carrying the failed request's identifier — no cache write, the
/// error counter, and the message is still acknowledged.
pub proof fn lemma_backend_failure_publishes_one_error(
    req: SpecMemeRequest,
    outcome: SpecBackendOutcome,
    now: u64,
    ttl_secs: u64,
)
    requires
        !(outcome is Image),
    ensures
        ({
            let o = spec_generate_outcome(req, outcome, now, ttl_secs);
            &&& o.publication is Failure
            &&& spec_publication_request_id(o.publication) == req.id
            &&& o.cache_write is None
            &&& o.counter == Counter::Errors
            &&& o.ack
        }),
{
}

/// Law: whatever the backend came back with, the one publication of a
/// request carries that request's identifier; requests with distinct
/// identifiers therefore end in distinct publications, whatever order they
/// finish in.
pub proof fn lemma_publication_carries_request_id(
    req: SpecMemeRequest,
    outcome: SpecBackendOutcome,
    now: u64,
    ttl_secs: u64,
)
    ensures
        spec_publication_request_id(spec_generate_outcome(req, outcome, now, ttl_secs).publication)
            == req.id,
{
}

/// Law: requests with distinct identifiers never publish under each other's
/// identifier, whichever completes first.
pub proof fn lemma_distinct_requests_publish_distinctly(
    r1: SpecMemeRequest,
    r2: SpecMemeRequest,
    o1: SpecBackendOutcome,
    o2: SpecBackendOutcome,
    now1: u64,
    now2: u64,
    ttl_secs: u64,
)
    requires
        r1.id != r2.id,
    ensures
        spec_publication_request_id(spec_generate_outcome(r1, o1, now1, ttl_secs).publication)
            != spec_publication_request_id(
            spec_generate_outcome(r2, o2, now2, ttl_secs).publication,
        ),
{
}

/// Law: the backend is asked for 512×512 exactly when `small_image` is set,
/// and for 1024×1024 otherwise, both in the call's dimensions and inside
/// its body.
pub proof fn lemma_resolution_follows_small_image(
    req: SpecMemeRequest,
    lookup: SpecCacheLookup,
    configured: Seq<char>,
    now: u64,
)
    requires
        !(lookup is Hit),
    ensures
        ({
            let p = spec_cache_plan(req, lookup, configured, now);
            &&& p is Generate
            &&& p matches SpecCachePlan::Generate(call) ==> call.width == (
                if req.small_image {
                    512u32
                } else {
                    1024u32
                }) && call.height == call.width && call.body == spec_backend_body(
                spec_full_prompt(req.prompt),
                call.width,
            )
        }),
{
}

} // verus!
