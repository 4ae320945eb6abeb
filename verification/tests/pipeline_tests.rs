use meme_generator::msg::{MemeError, MemeRequest, MemeResponse};
use meme_generator::pipeline::{
    after_cache, after_generate, cache_write_counter, error_subject, BackendOutcome, CacheLookup,
    CachePlan, Counter, Publication, GENERATION_TIMEOUT_SECS,
};
use meme_generator::policy::{default_model_url, fast_model_url, image_size, select_model_url};
use meme_generator::key::{cache_key, request_cache_key};
use meme_generator::prompt::full_prompt;
use meme_generator::ser::{backend_body, error_json, json_escape, response_json};

const PRE: &str = "Funny meme image with cartoon style, vibrant colors. The image should have medium-sized, white text with black outline in impact font. The meme should be about: ";
const SUF: &str = ". The text should be short, funny, and placed at the top and bottom of the image in classic meme style. Make sure the text is not too large.";

fn req(id: &str, prompt: &str, fast_mode: bool, small_image: bool) -> MemeRequest {
    MemeRequest { id: id.to_string(), prompt: prompt.to_string(), fast_mode, small_image }
}

#[test]
fn model_selection_policy() {
    let flux = "https://router.huggingface.co/hf-inference/models/black-forest-labs/FLUX.1-schnell";
    let sd = "https://api-inference.huggingface.co/models/runwayml/stable-diffusion-v1-5";
    assert_eq!(fast_model_url(), flux);
    assert_eq!(default_model_url(), sd);
    assert_eq!(select_model_url(true, false, "http://cfg"), flux);
    assert_eq!(select_model_url(false, true, "http://cfg"), flux);
    assert_eq!(select_model_url(true, true, ""), flux);
    assert_eq!(select_model_url(false, false, "http://cfg"), "http://cfg");
    assert_eq!(select_model_url(false, false, ""), sd);
}

#[test]
fn resolution_follows_small_image() {
    assert_eq!(image_size(true), 512);
    assert_eq!(image_size(false), 1024);
}

#[test]
fn cache_key_holds_all_three_content_fields() {
    assert_eq!(cache_key("cat", true, false), "meme:cat:true:false");
    assert_eq!(cache_key("cat", false, true), "meme:cat:false:true");
    assert_eq!(cache_key("", false, false), "meme::false:false");
}

#[test]
fn cache_key_ignores_the_id() {
    let a = req("one", "cat", true, false);
    let b = req("two", "cat", true, false);
    assert_eq!(request_cache_key(&a), request_cache_key(&b));
    let c = req("one", "dog", true, false);
    assert_ne!(request_cache_key(&a), request_cache_key(&c));
}

#[test]
fn prompt_is_wrapped_in_the_fixed_template() {
    assert_eq!(full_prompt("cat astronaut"), format!("{}cat astronaut{}", PRE, SUF));
}

#[test]
fn backend_body_carries_prompt_and_resolution() {
    assert_eq!(
        backend_body("p", 512),
        r#"{"inputs":"p","parameters":{"width":512,"height":512}}"#
    );
}

#[test]
fn cache_hit_responds_without_backend_call() {
    let r = req("one", "cat", false, false);
    let (plan, counter) = after_cache(&r, CacheLookup::Hit("YWJj".to_string()), "", 42);
    assert_eq!(counter, Counter::CacheHits);
    match plan {
        CachePlan::Respond(resp) => {
            assert_eq!(resp.request_id, "one");
            assert_eq!(resp.image_data, "YWJj");
            assert_eq!(resp.prompt, "cat");
            assert_eq!(resp.timestamp, 42);
        },
        CachePlan::Generate(_) => panic!("a hit must not call the backend"),
    }
}

#[test]
fn cache_miss_plans_one_backend_call() {
    let r = req("one", "cat astronaut", false, false);
    let (plan, counter) = after_cache(&r, CacheLookup::Miss, "", 42);
    assert_eq!(counter, Counter::CacheMisses);
    match plan {
        CachePlan::Generate(call) => {
            assert_eq!(call.url, default_model_url());
            assert_eq!(call.width, 1024);
            assert_eq!(call.height, 1024);
            assert_eq!(call.timeout_secs, GENERATION_TIMEOUT_SECS);
            let expected = format!(
                r#"{{"inputs":"{}cat astronaut{}","parameters":{{"width":1024,"height":1024}}}}"#,
                PRE, SUF
            );
            assert_eq!(call.body, expected);
        },
        CachePlan::Respond(_) => panic!("a miss must call the backend"),
    }
}

#[test]
fn unreachable_cache_degrades_to_generation() {
    let r = req("one", "cat", true, true);
    let (plan, counter) = after_cache(&r, CacheLookup::Unavailable, "http://cfg", 42);
    assert_eq!(counter, Counter::CacheErrors);
    match plan {
        CachePlan::Generate(call) => {
            assert_eq!(call.url, fast_model_url());
            assert_eq!(call.width, 512);
        },
        CachePlan::Respond(_) => panic!("an unreachable cache must degrade to generation"),
    }
}

#[test]
fn successful_generation_caches_and_publishes() {
    let r = req("one", "cat", false, true);
    let out = after_generate(&r, BackendOutcome::Image(b"abc".to_vec()), 99, 3600);
    assert!(out.ack);
    assert_eq!(out.counter, Counter::Success);
    let w = out.cache_write.expect("success must store the image");
    assert_eq!(w.key, "meme:cat:false:true");
    assert_eq!(w.value, "YWJj");
    assert_eq!(w.ttl_secs, 3600);
    match out.publication {
        Publication::Success(resp) => {
            assert_eq!(resp.request_id, "one");
            assert_eq!(resp.image_data, "YWJj");
            assert_eq!(resp.prompt, "cat");
            assert_eq!(resp.timestamp, 99);
        },
        Publication::Failure(_) => panic!("success must publish on the response channel"),
    }
}

#[test]
fn base64_padding_matches_the_standard_alphabet() {
    let r = req("one", "p", false, false);
    let padded = |bytes: &[u8]| match after_generate(
        &r,
        BackendOutcome::Image(bytes.to_vec()),
        0,
        1,
    ).publication {
        Publication::Success(resp) => resp.image_data,
        Publication::Failure(_) => panic!("success expected"),
    };
    assert_eq!(padded(b""), "");
    assert_eq!(padded(b"a"), "YQ==");
    assert_eq!(padded(b"ab"), "YWI=");
    assert_eq!(padded(b"abc"), "YWJj");
    assert_eq!(padded(&[0xff, 0x00, 0x10]), "/wAQ");
}

#[test]
fn backend_http_error_publishes_one_error_and_acks() {
    let r = req("one", "cat", false, false);
    let out = after_generate(
        &r,
        BackendOutcome::HttpError { status: 500, body: "Internal".to_string() },
        77,
        3600,
    );
    assert!(out.ack);
    assert_eq!(out.counter, Counter::Errors);
    assert!(out.cache_write.is_none());
    match out.publication {
        Publication::Failure(e) => {
            assert_eq!(e.request_id, "one");
            assert_eq!(e.error, "Hugging Face API error (500): Internal");
            assert_eq!(e.timestamp, 77);
        },
        Publication::Success(_) => panic!("a failure must publish on the error channel"),
    }
}

#[test]
fn transport_failure_publishes_its_description() {
    let r = req("one", "cat", false, false);
    let out = after_generate(
        &r,
        BackendOutcome::Transport { message: "Failed to send request to Hugging Face API".to_string() },
        1,
        1,
    );
    assert!(out.ack);
    assert!(out.cache_write.is_none());
    match out.publication {
        Publication::Failure(e) => {
            assert_eq!(e.error, "Failed to send request to Hugging Face API");
            assert_eq!(e.request_id, "one");
        },
        Publication::Success(_) => panic!("a failure must publish on the error channel"),
    }
}

#[test]
fn concurrent_requests_publish_under_their_own_ids() {
    let requests = vec![
        req("id-a", "alpha", false, false),
        req("id-b", "beta", false, false),
        req("id-c", "gamma", false, false),
    ];
    let mut seen: Vec<String> = Vec::new();
    for r in requests.iter().rev() {
        let out = after_generate(&r, BackendOutcome::Image(r.prompt.as_bytes().to_vec()), 5, 60);
        match out.publication {
            Publication::Success(resp) => {
                assert_eq!(resp.request_id, r.id);
                seen.push(resp.request_id);
            },
            Publication::Failure(_) => panic!("success expected"),
        }
    }
    assert_eq!(seen.len(), 3);
    for i in 0..seen.len() {
        for j in 0..i {
            assert_ne!(seen[i], seen[j]);
        }
    }
}

#[test]
fn response_serializes_exactly() {
    let resp = MemeResponse {
        request_id: "r".to_string(),
        image_data: "YWJj".to_string(),
        prompt: "hi".to_string(),
        timestamp: 7,
    };
    assert_eq!(
        response_json(&resp),
        r#"{"request_id":"r","image_data":"YWJj","prompt":"hi","timestamp":7}"#
    );
}

#[test]
fn error_serializes_exactly() {
    let e = MemeError {
        request_id: "r".to_string(),
        error: "Hugging Face API error (503): busy".to_string(),
        timestamp: 0,
    };
    assert_eq!(
        error_json(&e),
        r#"{"request_id":"r","error":"Hugging Face API error (503): busy","timestamp":0}"#
    );
}

#[test]
fn serialization_escapes_strings() {
    assert_eq!(json_escape("a\"b\\c\nd"), "a\\\"b\\\\c\\nd");
    assert_eq!(json_escape("\u{8}\u{c}\r\t"), "\\b\\f\\r\\t");
    assert_eq!(json_escape("\u{1}\u{1f}"), "\\u0001\\u001f");
    assert_eq!(json_escape("café 🦀"), "café 🦀");
    let resp = MemeResponse {
        request_id: "r/1".to_string(),
        image_data: "AA==".to_string(),
        prompt: "say \"hi\"\n".to_string(),
        timestamp: 18446744073709551615,
    };
    assert_eq!(
        response_json(&resp),
        "{\"request_id\":\"r/1\",\"image_data\":\"AA==\",\"prompt\":\"say \\\"hi\\\"\\n\",\"timestamp\":18446744073709551615}"
    );
}

#[test]
fn error_channel_name_uses_the_fixed_suffix() {
    assert_eq!(error_subject("meme.response"), "meme.response.error");
}

#[test]
fn counters_report_under_their_metric_names() {
    assert_eq!(Counter::Requests.metric_name(), "meme_generator_requests_total");
    assert_eq!(Counter::Success.metric_name(), "meme_generator_success_total");
    assert_eq!(Counter::Errors.metric_name(), "meme_generator_errors_total");
    assert_eq!(Counter::CacheHits.metric_name(), "meme_generator_cache_hits_total");
    assert_eq!(Counter::CacheMisses.metric_name(), "meme_generator_cache_misses_total");
    assert_eq!(Counter::CacheErrors.metric_name(), "meme_generator_cache_errors_total");
}

#[test]
fn failed_cache_write_counts_but_does_not_fail() {
    assert_eq!(cache_write_counter(true), None);
    assert_eq!(cache_write_counter(false), Some(Counter::CacheErrors));
}
