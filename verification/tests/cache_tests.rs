use meme_generator::cache::CacheModel;
use meme_generator::key::request_cache_key;
use meme_generator::pipeline::{
    after_cache, after_generate, consume_step, BackendOutcome, CacheLookup, CachePlan,
    ConsumeAction, Counter, Publication,
};

fn fid() -> String {
    "00000000-0000-4000-8000-000000000000".to_string()
}

#[test]
fn get_before_expiry_returns_the_value() {
    let mut c = CacheModel::new();
    c.set("k".to_string(), "v".to_string(), 100);
    assert_eq!(c.get("k", 0), Some("v".to_string()));
    assert_eq!(c.get("k", 99), Some("v".to_string()));
}

#[test]
fn ttl_expiry_ends_retrieval() {
    let mut c = CacheModel::new();
    // Written at time 10 with a TTL of one second.
    c.set("k".to_string(), "v".to_string(), 10 + 1);
    assert_eq!(c.get("k", 10), Some("v".to_string()));
    assert_eq!(c.get("k", 11), None);
    assert_eq!(c.get("k", 12), None);
}

#[test]
fn unknown_keys_miss() {
    let c = CacheModel::new();
    assert_eq!(c.get("nope", 0), None);
    let mut c2 = CacheModel::new();
    c2.set("a".to_string(), "1".to_string(), 10);
    assert_eq!(c2.get("b", 0), None);
}

#[test]
fn newer_binding_of_a_key_wins() {
    let mut c = CacheModel::new();
    c.set("k".to_string(), "old".to_string(), 100);
    c.set("k".to_string(), "new".to_string(), 200);
    assert_eq!(c.get("k", 50), Some("new".to_string()));
    // The newest binding's expiry governs, even when an older one lay later.
    c.set("k".to_string(), "short".to_string(), 60);
    assert_eq!(c.get("k", 70), None);
}

#[test]
fn second_identical_request_hits_within_ttl() {
    let ttl: u64 = 3600;
    let configured = "";
    let mut cache = CacheModel::new();

    // First request arrives with one id.
    let r1 = match consume_step(br#"{"id":"one","prompt":"sunset","small_image":true}"#, fid()) {
        ConsumeAction::Dispatch(r) => r,
        ConsumeAction::AckAndSkip => panic!("expected a dispatch"),
    };
    let key1 = request_cache_key(&r1);
    assert_eq!(cache.get(&key1, 100), None);
    let (plan, counter) = after_cache(&r1, CacheLookup::Miss, configured, 100);
    assert_eq!(counter, Counter::CacheMisses);
    let call = match plan {
        CachePlan::Generate(call) => call,
        CachePlan::Respond(_) => panic!("an empty cache must generate"),
    };
    assert_eq!(call.width, 512);

    // The backend answers; the image is stored and published.
    let out = after_generate(&r1, BackendOutcome::Image(b"abc".to_vec()), 105, ttl);
    let w = out.cache_write.expect("success must store the image");
    let expires_at = 105 + w.ttl_secs;
    cache.set(w.key, w.value, expires_at);
    match out.publication {
        Publication::Success(resp) => assert_eq!(resp.request_id, "one"),
        Publication::Failure(_) => panic!("success expected"),
    }

    // A second request with the same content and another id hits the same
    // entry, and its plan holds no backend call.
    let r2 = match consume_step(br#"{"id":"two","prompt":"sunset","small_image":true}"#, fid()) {
        ConsumeAction::Dispatch(r) => r,
        ConsumeAction::AckAndSkip => panic!("expected a dispatch"),
    };
    let key2 = request_cache_key(&r2);
    assert_eq!(key2, key1);
    let got = cache.get(&key2, 200).expect("within the TTL the entry must hit");
    assert_eq!(got, "YWJj");
    let (plan2, counter2) = after_cache(&r2, CacheLookup::Hit(got), configured, 200);
    assert_eq!(counter2, Counter::CacheHits);
    match plan2 {
        CachePlan::Respond(resp) => {
            assert_eq!(resp.request_id, "two");
            assert_eq!(resp.image_data, "YWJj");
            assert_eq!(resp.prompt, "sunset");
        },
        CachePlan::Generate(_) => panic!("a hit must not call the backend"),
    }

    // From the expiry on the lookup misses and a fresh call is planned.
    assert_eq!(cache.get(&key2, expires_at), None);
    let (plan3, counter3) = after_cache(&r2, CacheLookup::Miss, configured, expires_at);
    assert_eq!(counter3, Counter::CacheMisses);
    assert!(matches!(plan3, CachePlan::Generate(_)));
}
