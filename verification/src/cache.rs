//! The key/value-with-expiry store the pipeline assumes, as a verified
//! model.
//!
//! The real worker keeps its entries in an external store; this model
//! states the store's contract — a value written under a key with an expiry
//! is served for lookups strictly before that expiry and never from it on —
//! and lets the expiry behaviour of the whole pipeline be proved and
//! exercised.

use vstd::prelude::*;

use crate::key::{lemma_cache_key_content_only, spec_request_cache_key};
use crate::msg::SpecMemeRequest;
use crate::pipeline::{spec_cache_plan, SpecCacheLookup, SpecCachePlan};
use crate::text::str_eq;

verus! {

/// One stored binding: a value under a key until a point in time.
pub struct CacheEntry {
    pub key: String,
    pub value: String,
    pub expires_at: u64,
}

/// What the store remembers of a key: the value and its expiry.
pub struct SpecCacheEntry {
    pub value: Seq<char>,
    pub expires_at: u64,
}

/// The bindings as a map; the newest binding of a key wins.
pub open spec fn map_of(entries: Seq<CacheEntry>) -> Map<Seq<char>, SpecCacheEntry>
    decreases entries.len(),
{
    if entries.len() == 0 {
        Map::empty()
    } else {
        map_of(entries.drop_last()).insert(
            entries.last().key@,
            SpecCacheEntry { value: entries.last().value@, expires_at: entries.last().expires_at },
        )
    }
}

/// A key/value store with per-entry expiry.
pub struct CacheModel {
    entries: Vec<CacheEntry>,
}

impl View for CacheModel {
    type V = Map<Seq<char>, SpecCacheEntry>;

    closed spec fn view(&self) -> Map<Seq<char>, SpecCacheEntry> {
        map_of(self.entries@)
    }
}

/// A key bound by no entry is absent from the map.
proof fn lemma_map_of_no_key(entries: Seq<CacheEntry>, k: Seq<char>)
    requires
        forall|j: int| 0 <= j < entries.len() ==> entries[j].key@ != k,
    ensures
        !map_of(entries).contains_key(k),
    decreases entries.len(),
{
    if entries.len() > 0 {
        lemma_map_of_no_key(entries.drop_last(), k);
    }
}

/// The newest entry of a key gives its binding in the map.
proof fn lemma_map_of_found(entries: Seq<CacheEntry>, i: int, k: Seq<char>)
    requires
        0 <= i < entries.len(),
        entries[i].key@ == k,
        forall|j: int| i < j < entries.len() ==> entries[j].key@ != k,
    ensures
        map_of(entries).contains_key(k),
        map_of(entries)[k] == (SpecCacheEntry {
            value: entries[i].value@,
            expires_at: entries[i].expires_at,
        }),
    decreases entries.len(),
{
    if i < entries.len() - 1 {
        lemma_map_of_found(entries.drop_last(), i, k);
    }
}

impl CacheModel {
    /// An empty store.
    pub fn new() -> (r: CacheModel)
        ensures
            r@ == Map::<Seq<char>, SpecCacheEntry>::empty(),
    {
        CacheModel { entries: Vec::new() }
    }

    /// Looks a key up at time `now`: the stored value when the key is bound
    /// and its expiry lies strictly after `now`; nothing otherwise. An
    /// entry is never served at or after its expiry.
    pub fn get(&self, key: &str, now: u64) -> (r: Option<String>)
        ensures
            r is Some <==> (self@.contains_key(key@) && now < self@[key@].expires_at),
            r is Some ==> r.unwrap()@ == self@[key@].value,
    {
        let n = self.entries.len();
        let mut i: usize = n;
        while i > 0
            invariant
                i <= n,
                n == self.entries@.len(),
                forall|j: int| i <= j < n ==> self.entries@[j].key@ != key@,
            decreases i,
        {
            let e = &self.entries[i - 1];
            if str_eq(e.key.as_str(), key) {
                proof {
                    lemma_map_of_found(self.entries@, i - 1 as int, key@);
                }
                if now < e.expires_at {
                    return Some(e.value.clone());
                } else {
                    return None;
                }
            }
            i = i - 1;
        }
        proof {
            lemma_map_of_no_key(self.entries@, key@);
        }
        None
    }

    /// Binds the value to the key until `expires_at`, replacing any older
    /// binding of the key.
    pub fn set(&mut self, key: String, value: String, expires_at: u64)
        ensures
            final(self)@ == old(self)@.insert(
                key@,
                SpecCacheEntry { value: value@, expires_at },
            ),
    {
        let ghost before = self.entries@;
        let e = CacheEntry { key, value, expires_at };
        self.entries.push(e);
        proof {
            assert(self.entries@.drop_last() =~= before);
        }
    }
}

/// Law: after a request's image is stored, a second request with the same
/// content — whatever its identifier — finds the entry under its own key;
/// strictly before the expiry the lookup hits and the plan for it holds no
/// backend call, while from the expiry on the lookup misses and a fresh
/// backend call is planned.
pub proof fn lemma_second_request_and_expiry(
    c: Map<Seq<char>, SpecCacheEntry>,
    r1: SpecMemeRequest,
    r2: SpecMemeRequest,
    stored: Seq<char>,
    expires_at: u64,
    now: u64,
    configured: Seq<char>,
)
    requires
        r1.prompt == r2.prompt,
        r1.fast_mode == r2.fast_mode,
        r1.small_image == r2.small_image,
    ensures
        ({
            let c2 = c.insert(
                spec_request_cache_key(r1),
                SpecCacheEntry { value: stored, expires_at },
            );
            &&& c2.contains_key(spec_request_cache_key(r2))
            &&& c2[spec_request_cache_key(r2)].value == stored
            &&& c2[spec_request_cache_key(r2)].expires_at == expires_at
            &&& (now < expires_at ==> spec_cache_plan(
                r2,
                SpecCacheLookup::Hit(stored),
                configured,
                now,
            ) is Respond)
            &&& (now >= expires_at ==> spec_cache_plan(
                r2,
                SpecCacheLookup::Miss,
                configured,
                now,
            ) is Generate)
        }),
{
    lemma_cache_key_content_only(r1, r2);
}

} // verus!
