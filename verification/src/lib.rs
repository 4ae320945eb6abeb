//! Core logic of a queue-driven meme-image generation worker.
//!
//! The worker consumes generation requests from a durable queue, looks a
//! deterministic cache key up first, calls an image-synthesis backend on a
//! miss, stores the encoded image back into the cache, and publishes either
//! a success or an error message. Everything that decides — message
//! parsing, cache-key derivation, model and resolution selection, prompt
//! templating, message serialization, and the per-request processing plan —
//! lives here and is verified; the surrounding I/O (queue, cache store,
//! HTTP, metrics endpoint) performs the planned actions.

pub mod cache;
pub mod key;
pub mod msg;
pub mod parse;
pub mod pipeline;
pub mod policy;
pub mod prompt;
pub mod ser;
pub mod text;
