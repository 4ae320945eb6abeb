//! Model-selection and resolution policy.
//!
//! The backend is chosen by one fixed, documented rule:
//! when `fast_mode` or `small_image` is set, the low-latency model is used;
//! otherwise the configured model endpoint is used, falling back to the
//! default quality model when the configured endpoint is empty.
//! The resolution is 512×512 when `small_image` is set, 1024×1024 otherwise.

use vstd::prelude::*;

verus! {

/// Endpoint of the low-latency model, used for `fast_mode` or `small_image`.
pub fn fast_model_url() -> (r: &'static str)
    ensures
        r@ == spec_fast_model_url(),
{
    "https://router.huggingface.co/hf-inference/models/black-forest-labs/FLUX.1-schnell"
}

pub open spec fn spec_fast_model_url() -> Seq<char> {
    "https://router.huggingface.co/hf-inference/models/black-forest-labs/FLUX.1-schnell"@
}

/// Endpoint of the default quality model, used when no endpoint is configured.
pub fn default_model_url() -> (r: &'static str)
    ensures
        r@ == spec_default_model_url(),
{
    "https://api-inference.huggingface.co/models/runwayml/stable-diffusion-v1-5"
}

pub open spec fn spec_default_model_url() -> Seq<char> {
    "https://api-inference.huggingface.co/models/runwayml/stable-diffusion-v1-5"@
}

/// The one model-selection rule of this worker, as a table over the two
/// request flags and the configured endpoint.
pub open spec fn spec_model_url(fast_mode: bool, small_image: bool, configured: Seq<char>) -> Seq<
    char,
> {
    if fast_mode || small_image {
        spec_fast_model_url()
    } else if configured.len() == 0 {
        spec_default_model_url()
    } else {
        configured
    }
}

/// Selects the backend endpoint for one request.
///
/// `configured` is the quality-model endpoint from configuration; it only
/// matters when neither flag is set.
pub fn select_model_url(fast_mode: bool, small_image: bool, configured: &str) -> (r: String)
    ensures
        r@ == spec_model_url(fast_mode, small_image, configured@),
{
    if fast_mode || small_image {
        String::from_str(fast_model_url())
    } else if configured.is_empty() {
        String::from_str(default_model_url())
    } else {
        configured.to_owned()
    }
}

/// The requested output resolution: images are square, so one side suffices.
pub open spec fn spec_image_size(small_image: bool) -> u32 {
    if small_image {
        512u32
    } else {
        1024u32
    }
}

/// Side length of the requested image: 512 for `small_image`, 1024 otherwise.
pub fn image_size(small_image: bool) -> (r: u32)
    ensures
        r == spec_image_size(small_image),
{
    if small_image {
        512
    } else {
        1024
    }
}

} // verus!
