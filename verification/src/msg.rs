//! The three message shapes of the worker: the generation request it
//! consumes, and the success and error messages it publishes, together with
//! the normalization that fills a request's optional fields.

use vstd::prelude::*;

verus! {

/// One meme-generation request, fully populated: absent optional fields have
/// been replaced by their defaults, so the value is immutable from here on.
#[derive(Debug, Clone)]
pub struct MemeRequest {
    pub id: String,
    pub prompt: String,
    pub fast_mode: bool,
    pub small_image: bool,
}

/// Mathematical image of a [`MemeRequest`].
pub struct SpecMemeRequest {
    pub id: Seq<char>,
    pub prompt: Seq<char>,
    pub fast_mode: bool,
    pub small_image: bool,
}

impl View for MemeRequest {
    type V = SpecMemeRequest;

    open spec fn view(&self) -> SpecMemeRequest {
        SpecMemeRequest {
            id: self.id@,
            prompt: self.prompt@,
            fast_mode: self.fast_mode,
            small_image: self.small_image,
        }
    }
}

/// A successful generation, as published on the response channel. The image
/// travels as text-safe encoded bytes in `image_data`.
#[derive(Debug, Clone)]
pub struct MemeResponse {
    pub request_id: String,
    pub image_data: String,
    pub prompt: String,
    pub timestamp: u64,
}

/// Mathematical image of a [`MemeResponse`].
pub struct SpecMemeResponse {
    pub request_id: Seq<char>,
    pub image_data: Seq<char>,
    pub prompt: Seq<char>,
    pub timestamp: u64,
}

impl View for MemeResponse {
    type V = SpecMemeResponse;

    open spec fn view(&self) -> SpecMemeResponse {
        SpecMemeResponse {
            request_id: self.request_id@,
            image_data: self.image_data@,
            prompt: self.prompt@,
            timestamp: self.timestamp,
        }
    }
}

/// A failed generation, as published on the error channel.
#[derive(Debug, Clone)]
pub struct MemeError {
    pub request_id: String,
    pub error: String,
    pub timestamp: u64,
}

/// Mathematical image of a [`MemeError`].
pub struct SpecMemeError {
    pub request_id: Seq<char>,
    pub error: Seq<char>,
    pub timestamp: u64,
}

impl View for MemeError {
    type V = SpecMemeError;

    open spec fn view(&self) -> SpecMemeError {
        SpecMemeError { request_id: self.request_id@, error: self.error@, timestamp: self.timestamp }
    }
}

/// The fields of a request message as they stand on the wire, before the
/// absent ones are defaulted.
pub struct RequestFields {
    pub id: Option<String>,
    pub prompt: Option<String>,
    pub fast_mode: Option<bool>,
    pub small_image: Option<bool>,
}

/// Mathematical image of [`RequestFields`].
pub struct SpecRequestFields {
    pub id: Option<Seq<char>>,
    pub prompt: Option<Seq<char>>,
    pub fast_mode: Option<bool>,
    pub small_image: Option<bool>,
}

impl View for RequestFields {
    type V = SpecRequestFields;

    open spec fn view(&self) -> SpecRequestFields {
        SpecRequestFields {
            id: match self.id {
                Some(ref s) => Some(s@),
                None => None,
            },
            prompt: match self.prompt {
                Some(ref s) => Some(s@),
                None => None,
            },
            fast_mode: self.fast_mode,
            small_image: self.small_image,
        }
    }
}

/// Default of the `fast_mode` flag: normal quality, not the low-latency model.
pub fn default_fast_mode() -> (r: bool)
    ensures
        r == false,
{
    false
}

/// Default of the `small_image` flag: full 1024×1024 resolution.
pub fn default_small_image() -> (r: bool)
    ensures
        r == false,
{
    false
}

/// Relies on `uuid::Uuid::new_v4` and its hyphenated rendering through
/// `Display`: a fresh random identifier, always 36 characters long.
#[verifier::external_body]
pub(crate) fn generate_uuid() -> (r: String)
    ensures
        r@.len() == 36,
{
    uuid::Uuid::new_v4().to_string()
}

/// What a fully-populated request holds for given wire fields and a given
/// replacement identifier: `None` exactly when the prompt is missing.
pub open spec fn spec_normalize(f: SpecRequestFields, fresh_id: Seq<char>) -> Option<
    SpecMemeRequest,
> {
    match f.prompt {
        None => None,
        Some(p) => Some(
            SpecMemeRequest {
                id: match f.id {
                    Some(i) => i,
                    None => fresh_id,
                },
                prompt: p,
                fast_mode: match f.fast_mode {
                    Some(b) => b,
                    None => false,
                },
                small_image: match f.small_image {
                    Some(b) => b,
                    None => false,
                },
            },
        ),
    }
}

/// The view of an optional request, for stating contracts.
pub open spec fn view_opt_request(r: Option<MemeRequest>) -> Option<SpecMemeRequest> {
    match r {
        Some(m) => Some(m@),
        None => None,
    }
}

/// Fills the optional fields of a parsed request with `fresh_id` and the
/// boolean defaults; fails exactly when the prompt is missing.
pub fn normalize_with_id(f: RequestFields, fresh_id: String) -> (r: Option<MemeRequest>)
    ensures
        view_opt_request(r) == spec_normalize(f@, fresh_id@),
{
    match f.prompt {
        None => None,
        Some(p) => Some(
            MemeRequest {
                id: match f.id {
                    Some(i) => i,
                    None => fresh_id,
                },
                prompt: p,
                fast_mode: match f.fast_mode {
                    Some(b) => b,
                    None => default_fast_mode(),
                },
                small_image: match f.small_image {
                    Some(b) => b,
                    None => default_small_image(),
                },
            },
        ),
    }
}

/// Fills the optional fields of a parsed request, drawing a fresh identifier
/// when the message carried none; fails exactly when the prompt is missing.
pub fn normalize(f: RequestFields) -> (r: Option<MemeRequest>)
    ensures
        r is Some <==> f@.prompt is Some,
        r is Some ==> {
            let m = view_opt_request(r).unwrap();
            &&& m.prompt == f@.prompt.unwrap()
            &&& m.fast_mode == (match f@.fast_mode {
                Some(b) => b,
                None => false,
            })
            &&& m.small_image == (match f@.small_image {
                Some(b) => b,
                None => false,
            })
            &&& (f@.id is Some ==> m.id == f@.id.unwrap())
            &&& (f@.id is None ==> m.id.len() == 36)
        },
{
    let fresh_id = generate_uuid();
    normalize_with_id(f, fresh_id)
}

} // verus!
