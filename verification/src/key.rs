//! Cache-key derivation.
//!
//! All three request fields that determine the output — the prompt and the
//! two flags — appear in the key, and nothing else does: two requests with
//! the same content share one cache entry whatever their identifiers.

use vstd::prelude::*;
use vstd::string::StringExecFns;

use crate::msg::{MemeRequest, SpecMemeRequest};

verus! {

/// The textual form of a flag inside a cache key.
pub open spec fn spec_bool_text(b: bool) -> Seq<char> {
    if b {
        "true"@
    } else {
        "false"@
    }
}

/// The textual form of a flag.
pub fn bool_text(b: bool) -> (r: &'static str)
    ensures
        r@ == spec_bool_text(b),
{
    if b {
        "true"
    } else {
        "false"
    }
}

/// The cache key of given request content.
pub open spec fn spec_cache_key(prompt: Seq<char>, fast_mode: bool, small_image: bool) -> Seq<
    char,
> {
    "meme:"@ + prompt + ":"@ + spec_bool_text(fast_mode) + ":"@ + spec_bool_text(small_image)
}

/// The cache key of a request: its content fields, never its identifier.
pub open spec fn spec_request_cache_key(r: SpecMemeRequest) -> Seq<char> {
    spec_cache_key(r.prompt, r.fast_mode, r.small_image)
}

/// Derives the cache key `meme:<prompt>:<fast_mode>:<small_image>`.
pub fn cache_key(prompt: &str, fast_mode: bool, small_image: bool) -> (r: String)
    ensures
        r@ == spec_cache_key(prompt@, fast_mode, small_image),
{
    let mut s = String::from_str("meme:");
    s.append(prompt);
    s.append(":");
    s.append(bool_text(fast_mode));
    s.append(":");
    s.append(bool_text(small_image));
    proof {
        assert(s@ =~= spec_cache_key(prompt@, fast_mode, small_image));
    }
    s
}

/// Derives the cache key of a request.
pub fn request_cache_key(r: &MemeRequest) -> (k: String)
    ensures
        k@ == spec_request_cache_key(r@),
{
    cache_key(r.prompt.as_str(), r.fast_mode, r.small_image)
}

/// Law: the cache key is a pure function of exactly the prompt and the two
/// flags; two requests that agree on those — whatever their identifiers —
/// map to the same key, so they are cache-equivalent.
pub proof fn lemma_cache_key_content_only(a: SpecMemeRequest, b: SpecMemeRequest)
    requires
        a.prompt == b.prompt,
        a.fast_mode == b.fast_mode,
        a.small_image == b.small_image,
    ensures
        spec_request_cache_key(a) == spec_request_cache_key(b),
{
}

} // verus!
