//! The caches of the integration service: entries kept under a string key
//! with the time they were stored, fresh for a time to live, and at most a
//! given number of them, one being evicted when a full cache takes a new one.
use vstd::prelude::*;
use crate::clock::current_unix_millis;
use crate::integration::CacheConfig;
use crate::text::{chars_of, vec_eq};

verus! {

/// A value kept under `key`, stored at `stored_at_ms` (milliseconds since the
/// Unix epoch).
#[derive(Debug, Clone)]
pub struct CacheEntry<V> {
    pub key: String,
    pub value: V,
    pub stored_at_ms: i64,
}

/// No key occurs twice among the entries.
pub open spec fn distinct_keys<V>(s: Seq<CacheEntry<V>>) -> bool {
    forall|i: int, j: int| 0 <= i < j < s.len() ==> s[i].key@ != s[j].key@
}

/// Whether some entry has the key `k`.
pub open spec fn has_key<V>(s: Seq<CacheEntry<V>>, k: Seq<char>) -> bool {
    exists|i: int| 0 <= i < s.len() && s[i].key@ == k
}

/// The map that the entries stand for: each key to its value and the time it
/// was stored.
pub open spec fn entry_map<V>(s: Seq<CacheEntry<V>>) -> Map<Seq<char>, (V, i64)> {
    Map::new(
        |k: Seq<char>| has_key(s, k),
        |k: Seq<char>| {
            let i = choose|i: int| 0 <= i < s.len() && s[i].key@ == k;
            (s[i].value, s[i].stored_at_ms)
        },
    )
}

/// With distinct keys, the entry at `i` is what the map holds under its key.
proof fn lemma_entry_at<V>(s: Seq<CacheEntry<V>>, i: int)
    requires
        distinct_keys(s),
        0 <= i < s.len(),
    ensures
        entry_map(s).contains_key(s[i].key@),
        entry_map(s)[s[i].key@] == (s[i].value, s[i].stored_at_ms),
{
    let k = s[i].key@;
    assert(has_key(s, k));
    let j = choose|j: int| 0 <= j < s.len() && s[j].key@ == k;
    if j < i {
        assert(s[j].key@ != s[i].key@);
    } else if i < j {
        assert(s[i].key@ != s[j].key@);
    }
}

/// Appending an entry with a new key adds it to the map.
proof fn lemma_push<V>(s: Seq<CacheEntry<V>>, e: CacheEntry<V>)
    requires
        distinct_keys(s),
        !has_key(s, e.key@),
    ensures
        distinct_keys(s.push(e)),
        entry_map(s.push(e)) == entry_map(s).insert(e.key@, (e.value, e.stored_at_ms)),
{
    let t = s.push(e);
    let n = s.len() as int;
    assert forall|i: int, j: int| 0 <= i < j < t.len() implies t[i].key@ != t[j].key@ by {
        if j < n {
            assert(s[i].key@ != s[j].key@);
        } else {
            assert(t[i] == s[i]);
        }
    }
    let m = entry_map(s).insert(e.key@, (e.value, e.stored_at_ms));
    assert forall|k: Seq<char>| #[trigger] entry_map(t).contains_key(k) <==> m.contains_key(k) by {
        if has_key(t, k) {
            let j = choose|j: int| 0 <= j < t.len() && t[j].key@ == k;
            if j < n {
                assert(s[j].key@ == k);
            }
        }
        if has_key(s, k) {
            let j = choose|j: int| 0 <= j < s.len() && s[j].key@ == k;
            assert(t[j].key@ == k);
        }
        if k == e.key@ {
            assert(t[n].key@ == k);
        }
    }
    assert forall|k: Seq<char>| #[trigger] entry_map(t).contains_key(k) implies entry_map(t)[k] == m[k] by {
        let j = choose|j: int| 0 <= j < t.len() && t[j].key@ == k;
        lemma_entry_at(t, j);
        if j < n {
            lemma_entry_at(s, j);
        }
    }
    assert(entry_map(t) =~= m);
}

/// Replacing the entry at `i` by one with the same key replaces the value in
/// the map.
proof fn lemma_update<V>(s: Seq<CacheEntry<V>>, i: int, e: CacheEntry<V>)
    requires
        distinct_keys(s),
        0 <= i < s.len(),
        s[i].key@ == e.key@,
    ensures
        distinct_keys(s.update(i, e)),
        entry_map(s.update(i, e)) == entry_map(s).insert(e.key@, (e.value, e.stored_at_ms)),
{
    let t = s.update(i, e);
    assert forall|a: int, b: int| 0 <= a < b < t.len() implies t[a].key@ != t[b].key@ by {
        assert(s[a].key@ != s[b].key@);
    }
    let m = entry_map(s).insert(e.key@, (e.value, e.stored_at_ms));
    assert forall|k: Seq<char>| #[trigger] entry_map(t).contains_key(k) <==> m.contains_key(k) by {
        if has_key(t, k) {
            let j = choose|j: int| 0 <= j < t.len() && t[j].key@ == k;
            if j != i {
                assert(s[j].key@ == k);
            }
        }
        if has_key(s, k) {
            let j = choose|j: int| 0 <= j < s.len() && s[j].key@ == k;
            assert(t[j].key@ == k);
        }
        if k == e.key@ {
            assert(t[i].key@ == k);
        }
    }
    assert forall|k: Seq<char>| #[trigger] entry_map(t).contains_key(k) implies entry_map(t)[k] == m[k] by {
        let j = choose|j: int| 0 <= j < t.len() && t[j].key@ == k;
        lemma_entry_at(t, j);
        if j != i {
            lemma_entry_at(s, j);
        }
    }
    assert(entry_map(t) =~= m);
}

/// Dropping the entry at `r` removes its key from the map.
proof fn lemma_remove_at<V>(s: Seq<CacheEntry<V>>, r: int)
    requires
        distinct_keys(s),
        0 <= r < s.len(),
    ensures
        distinct_keys(s.remove(r)),
        entry_map(s.remove(r)) == entry_map(s).remove(s[r].key@),
{
    let t = s.remove(r);
    assert forall|i: int| 0 <= i < t.len() implies #[trigger] t[i] == (if i < r { s[i] } else { s[i + 1] }) by {}
    assert forall|a: int, b: int| 0 <= a < b < t.len() implies t[a].key@ != t[b].key@ by {
        let a2 = if a < r { a } else { a + 1 };
        let b2 = if b < r { b } else { b + 1 };
        assert(t[a] == s[a2] && t[b] == s[b2]);
        assert(s[a2].key@ != s[b2].key@);
    }
    let m = entry_map(s).remove(s[r].key@);
    assert forall|k: Seq<char>| #[trigger] entry_map(t).contains_key(k) <==> m.contains_key(k) by {
        if has_key(t, k) {
            let j = choose|j: int| 0 <= j < t.len() && t[j].key@ == k;
            let j2 = if j < r { j } else { j + 1 };
            assert(t[j] == s[j2]);
            assert(s[j2].key@ == k);
            if j2 < r {
                assert(s[j2].key@ != s[r].key@);
            } else {
                assert(s[r].key@ != s[j2].key@);
            }
        }
        if has_key(s, k) && k != s[r].key@ {
            let j = choose|j: int| 0 <= j < s.len() && s[j].key@ == k;
            assert(j != r);
            let j2 = if j < r { j } else { j - 1 };
            assert(t[j2] == s[j]);
            assert(t[j2].key@ == k);
        }
    }
    assert forall|k: Seq<char>| #[trigger] entry_map(t).contains_key(k) implies entry_map(t)[k] == m[k] by {
        let j = choose|j: int| 0 <= j < t.len() && t[j].key@ == k;
        let j2 = if j < r { j } else { j + 1 };
        assert(t[j] == s[j2]);
        lemma_entry_at(t, j);
        lemma_entry_at(s, j2);
    }
    assert(entry_map(t) =~= m);
}

/// `k` holds the value stored longest ago: no value of the map was stored
/// earlier.
pub open spec fn oldest<V>(m: Map<Seq<char>, (V, i64)>, k: Seq<char>) -> bool {
    &&& m.contains_key(k)
    &&& forall|k2: Seq<char>| #[trigger] m.contains_key(k2) ==> m[k].1 <= m[k2].1
}

/// A cache holding `n` values is full: it holds `max_size` or more, and at
/// least one.
pub open spec fn is_full(n: nat, max_size: usize) -> bool {
    n >= max_size && n > 0
}

/// The map after storing `value` under `key` at `now_ms`: where the cache was
/// full, the value stored longest ago has first left; otherwise nothing else
/// changes.
pub open spec fn after_insert<V>(
    before: Map<Seq<char>, (V, i64)>,
    after: Map<Seq<char>, (V, i64)>,
    key: Seq<char>,
    value: V,
    now_ms: i64,
    full: bool,
) -> bool {
    if full {
        exists|k: Seq<char>| #[trigger] oldest(before, k) && after == before.remove(k).insert(key, (value, now_ms))
    } else {
        after == before.insert(key, (value, now_ms))
    }
}

/// Whether a value stored at `stored_at_ms` is still fresh at `now_ms` for a
/// time to live of `ttl_seconds`: less time has passed than the time to live
/// (a value stored "later" than now counts as fresh).
pub open spec fn is_fresh(stored_at_ms: i64, now_ms: i64, ttl_seconds: u64) -> bool {
    now_ms - stored_at_ms < ttl_seconds * 1000
}

/// Whether a borrowed answer is the expected one.
pub open spec fn same_value<V>(r: Option<&V>, expected: Option<V>) -> bool {
    match r {
        Some(v) => expected == Some(*v),
        None => expected is None,
    }
}

/// The number of values a cache of `max_size` holds at most: `max_size`,
/// and one when `max_size` is zero.
pub open spec fn capacity(max_size: usize) -> nat {
    if max_size == 0 { 1 } else { max_size as nat }
}

/// The longest time to live, in seconds, that the time library accepts.
pub const MAX_TTL_SECONDS: u64 = 9_223_372_036_854_775;

/// A cache of values under string keys, each fresh for `ttl_seconds` after it
/// was stored, holding at most `max_size` of them (and one when `max_size` is
/// zero).
#[derive(Debug, Clone)]
pub struct TtlCache<V> {
    pub entries: Vec<CacheEntry<V>>,
    pub ttl_seconds: u64,
    pub max_size: usize,
}

impl<V> TtlCache<V> {
    /// No key is kept twice.
    pub open spec fn wf(&self) -> bool {
        distinct_keys(self.entries@)
    }

    /// Each key to its value and the time it was stored.
    pub open spec fn view(&self) -> Map<Seq<char>, (V, i64)> {
        entry_map(self.entries@)
    }

    /// The value kept under `k` if it is still fresh at `now_ms`.
    pub open spec fn fresh_value(&self, k: Seq<char>, now_ms: i64) -> Option<V> {
        if self.view().contains_key(k) && is_fresh(self.view()[k].1, now_ms, self.ttl_seconds) {
            Some(self.view()[k].0)
        } else {
            None
        }
    }

    /// An empty cache.
    pub fn new(ttl_seconds: u64, max_size: usize) -> (r: Self)
        ensures
            r.wf(),
            r.view() == Map::<Seq<char>, (V, i64)>::empty(),
            r.entries@.len() == 0,
            r.ttl_seconds == ttl_seconds,
            r.max_size == max_size,
    {
        let r = TtlCache { entries: Vec::new(), ttl_seconds, max_size };
        assert(r.view() =~= Map::<Seq<char>, (V, i64)>::empty());
        r
    }

    /// The number of values kept.
    pub fn len(&self) -> (n: usize)
        ensures
            n == self.entries@.len(),
    {
        self.entries.len()
    }

    /// The position of `key`, if kept.
    fn find(&self, key: &str) -> (r: Option<usize>)
        ensures
            match r {
                Some(i) => i < self.entries@.len() && self.entries@[i as int].key@ == key@,
                None => !has_key(self.entries@, key@),
            },
    {
        let kc = chars_of(key);
        let mut i: usize = 0;
        while i < self.entries.len()
            invariant
                i <= self.entries.len(),
                kc@ == key@,
                forall|k: int| 0 <= k < i ==> self.entries@[k].key@ != key@,
            decreases self.entries.len() - i,
        {
            let ec = chars_of(self.entries[i].key.as_str());
            if vec_eq(&ec, &kc) {
                return Some(i);
            }
            i = i + 1;
        }
        None
    }

    /// The value kept under `key` at `now_ms`: present while it is fresh.
    pub fn get_at(&self, key: &str, now_ms: i64) -> (r: Option<&V>)
        requires
            self.wf(),
            self.ttl_seconds <= MAX_TTL_SECONDS,
        ensures
            same_value(r, self.fresh_value(key@, now_ms)),
    {
        match self.find(key) {
            Some(i) => {
                proof {
                    lemma_entry_at(self.entries@, i as int);
                }
                let stored = self.entries[i].stored_at_ms;
                let age: i128 = now_ms as i128 - stored as i128;
                let ttl_ms: i128 = self.ttl_seconds as i128 * 1000;
                if age < ttl_ms {
                    Some(&self.entries[i].value)
                } else {
                    None
                }
            },
            None => None,
        }
    }

    /// The value kept under `key`, read at the present time: what `get_at`
    /// gives at the clock's reading. What is returned is kept under `key`, and
    /// nothing is returned for a key that is not kept; whether a kept value is
    /// still fresh depends on the reading, of which nothing is known.
    pub fn get(&self, key: &str) -> (r: Option<&V>)
        requires
            self.wf(),
            self.ttl_seconds <= MAX_TTL_SECONDS,
        ensures
            match r {
                Some(v) => self.view().contains_key(key@) && *v == self.view()[key@].0,
                None => true,
            },
            !self.view().contains_key(key@) ==> r is None,
            exists|now_ms: i64| same_value(r, #[trigger] self.fresh_value(key@, now_ms)),
    {
        let now_ms = current_unix_millis();
        let r = self.get_at(key, now_ms);
        assert(same_value(r, self.fresh_value(key@, now_ms)));
        r
    }

    /// Stores `value` under `key` at `now_ms`. A cache that is full (it holds
    /// `max_size` values or more, and at least one) first lets one value go:
    /// the one stored longest ago (see `after_insert`).
    pub fn insert_at(&mut self, key: &str, value: V, now_ms: i64)
        requires
            old(self).wf(),
        ensures
            final(self).wf(),
            final(self).ttl_seconds == old(self).ttl_seconds,
            final(self).max_size == old(self).max_size,
            final(self).view().contains_key(key@),
            final(self).view()[key@] == (value, now_ms),
            after_insert(
                old(self).view(),
                final(self).view(),
                key@,
                value,
                now_ms,
                is_full(old(self).entries@.len(), old(self).max_size),
            ),
            final(self).entries@.len() <= old(self).entries@.len() + 1,
            old(self).entries@.len() >= old(self).max_size && old(self).entries@.len() > 0
                ==> final(self).entries@.len() <= old(self).entries@.len(),
            old(self).entries@.len() <= capacity(old(self).max_size)
                ==> final(self).entries@.len() <= capacity(old(self).max_size),
    {
        let ghost before = self.view();
        let full = self.entries.len() >= self.max_size && self.entries.len() > 0;
        let mut evicted_at: usize = 0;
        if full {
            let mut i: usize = 1;
            while i < self.entries.len()
                invariant
                    1 <= i <= self.entries@.len(),
                    evicted_at < i,
                    forall|j: int| 0 <= j < i ==> self.entries@[evicted_at as int].stored_at_ms <= #[trigger] self.entries@[j].stored_at_ms,
                decreases self.entries.len() - i,
            {
                if self.entries[i].stored_at_ms < self.entries[evicted_at].stored_at_ms {
                    evicted_at = i;
                }
                i = i + 1;
            }
        }
        let ghost evicted: Seq<char> = if full { self.entries@[evicted_at as int].key@ } else { key@ };
        if full {
            proof {
                let es = self.entries@;
                lemma_remove_at(es, evicted_at as int);
                lemma_entry_at(es, evicted_at as int);
                assert forall|k2: Seq<char>| #[trigger] before.contains_key(k2) implies before[evicted].1 <= before[k2].1 by {
                    let j = choose|j: int| 0 <= j < es.len() && es[j].key@ == k2;
                    lemma_entry_at(es, j);
                }
                assert(oldest(before, evicted));
            }
            self.entries.remove(evicted_at);
        }
        let ghost middle = self.view();
        assert(full ==> middle == before.remove(evicted));
        assert(!full ==> middle == before);
        let k = crate::text::to_string(key);
        let entry = CacheEntry { key: k, value, stored_at_ms: now_ms };
        match self.find(key) {
            Some(i) => {
                proof {
                    lemma_update(self.entries@, i as int, entry);
                }
                self.entries.set(i, entry);
            },
            None => {
                proof {
                    lemma_push(self.entries@, entry);
                }
                self.entries.push(entry);
            },
        }
        proof {
            assert(self.view() == middle.insert(key@, (value, now_ms)));
            if full {
                assert(self.view() == before.remove(evicted).insert(key@, (value, now_ms)));
                assert(oldest(before, evicted));
            }
        }
    }

    /// Stores `value` under `key` at the present time (see `insert_at`).
    pub fn insert(&mut self, key: &str, value: V)
        requires
            old(self).wf(),
        ensures
            final(self).wf(),
            final(self).ttl_seconds == old(self).ttl_seconds,
            final(self).max_size == old(self).max_size,
            final(self).view().contains_key(key@),
            final(self).view()[key@].0 == value,
            exists|now_ms: i64| #[trigger] after_insert(
                old(self).view(),
                final(self).view(),
                key@,
                value,
                now_ms,
                is_full(old(self).entries@.len(), old(self).max_size),
            ),
            final(self).entries@.len() <= old(self).entries@.len() + 1,
            old(self).entries@.len() >= old(self).max_size && old(self).entries@.len() > 0
                ==> final(self).entries@.len() <= old(self).entries@.len(),
            old(self).entries@.len() <= capacity(old(self).max_size)
                ==> final(self).entries@.len() <= capacity(old(self).max_size),
    {
        let now_ms = current_unix_millis();
        self.insert_at(key, value, now_ms);
        assert(after_insert(
            old(self).view(),
            self.view(),
            key@,
            value,
            now_ms,
            is_full(old(self).entries@.len(), old(self).max_size),
        ));
    }
}

/// The caches of the integration service: answers of type `R` under the key
/// of their request, and embeddings of type `E` under their text, each with
/// its time to live from the configuration and the same capacity.
pub struct CacheManager<R, E> {
    pub config: CacheConfig,
    pub responses: TtlCache<R>,
    pub embeddings: TtlCache<E>,
}

impl<R, E> CacheManager<R, E> {
    /// Both caches well formed and sized by the configuration.
    pub open spec fn wf(&self) -> bool {
        &&& self.responses.wf()
        &&& self.embeddings.wf()
        &&& self.responses.ttl_seconds == self.config.response_cache_ttl_seconds
        &&& self.embeddings.ttl_seconds == self.config.embedding_cache_ttl_seconds
        &&& self.responses.max_size == self.config.max_cache_size
        &&& self.embeddings.max_size == self.config.max_cache_size
    }

    /// Empty caches for `config`.
    pub fn new(config: CacheConfig) -> (r: Self)
        ensures
            r.wf(),
            r.config == config,
            r.responses.view() == Map::<Seq<char>, (R, i64)>::empty(),
            r.embeddings.view() == Map::<Seq<char>, (E, i64)>::empty(),
    {
        let responses = TtlCache::new(config.response_cache_ttl_seconds, config.max_cache_size);
        let embeddings = TtlCache::new(config.embedding_cache_ttl_seconds, config.max_cache_size);
        CacheManager { config, responses, embeddings }
    }

    /// The answer kept under `key` while fresh at `now_ms` (see
    /// `TtlCache::get_at`).
    pub fn get_cached_response_at(&self, key: &str, now_ms: i64) -> (r: Option<&R>)
        requires
            self.wf(),
            self.config.response_cache_ttl_seconds <= MAX_TTL_SECONDS,
        ensures
            same_value(r, self.responses.fresh_value(key@, now_ms)),
    {
        self.responses.get_at(key, now_ms)
    }

    /// The answer kept under `key`, read at the present time: what is
    /// returned is kept under `key`, and nothing for a key not kept.
    pub fn get_cached_response(&self, key: &str) -> (r: Option<&R>)
        requires
            self.wf(),
            self.config.response_cache_ttl_seconds <= MAX_TTL_SECONDS,
        ensures
            match r {
                Some(v) => self.responses.view().contains_key(key@) && *v == self.responses.view()[key@].0,
                None => true,
            },
            !self.responses.view().contains_key(key@) ==> r is None,
            exists|now_ms: i64| same_value(r, #[trigger] self.responses.fresh_value(key@, now_ms)),
    {
        self.responses.get(key)
    }

    /// Keeps `response` under `key` at `now_ms` (see `TtlCache::insert_at`).
    pub fn cache_response_at(&mut self, key: &str, response: R, now_ms: i64)
        requires
            old(self).wf(),
        ensures
            final(self).wf(),
            final(self).config == old(self).config,
            final(self).embeddings == old(self).embeddings,
            final(self).responses.view().contains_key(key@),
            final(self).responses.view()[key@] == (response, now_ms),
            after_insert(
                old(self).responses.view(),
                final(self).responses.view(),
                key@,
                response,
                now_ms,
                is_full(old(self).responses.entries@.len(), old(self).config.max_cache_size),
            ),
            final(self).responses.entries@.len() <= old(self).responses.entries@.len() + 1,
            old(self).responses.entries@.len() >= old(self).config.max_cache_size
                && old(self).responses.entries@.len() > 0
                ==> final(self).responses.entries@.len() <= old(self).responses.entries@.len(),
            old(self).responses.entries@.len() <= capacity(old(self).config.max_cache_size)
                ==> final(self).responses.entries@.len() <= capacity(old(self).config.max_cache_size),
    {
        self.responses.insert_at(key, response, now_ms);
    }

    /// Keeps `response` under `key` at the present time.
    pub fn cache_response(&mut self, key: &str, response: R)
        requires
            old(self).wf(),
        ensures
            final(self).wf(),
            final(self).config == old(self).config,
            final(self).embeddings == old(self).embeddings,
            final(self).responses.view().contains_key(key@),
            final(self).responses.view()[key@].0 == response,
            exists|now_ms: i64| #[trigger] after_insert(
                old(self).responses.view(),
                final(self).responses.view(),
                key@,
                response,
                now_ms,
                is_full(old(self).responses.entries@.len(), old(self).config.max_cache_size),
            ),
            final(self).responses.entries@.len() <= old(self).responses.entries@.len() + 1,
            old(self).responses.entries@.len() <= capacity(old(self).config.max_cache_size)
                ==> final(self).responses.entries@.len() <= capacity(old(self).config.max_cache_size),
    {
        self.responses.insert(key, response);
    }

    /// The embedding kept for `text` while fresh at `now_ms`.
    pub fn get_cached_embedding_at(&self, text: &str, now_ms: i64) -> (r: Option<&E>)
        requires
            self.wf(),
            self.config.embedding_cache_ttl_seconds <= MAX_TTL_SECONDS,
        ensures
            same_value(r, self.embeddings.fresh_value(text@, now_ms)),
    {
        self.embeddings.get_at(text, now_ms)
    }

    /// The embedding kept for `text`, read at the present time.
    pub fn get_cached_embedding(&self, text: &str) -> (r: Option<&E>)
        requires
            self.wf(),
            self.config.embedding_cache_ttl_seconds <= MAX_TTL_SECONDS,
        ensures
            match r {
                Some(v) => self.embeddings.view().contains_key(text@) && *v == self.embeddings.view()[text@].0,
                None => true,
            },
            !self.embeddings.view().contains_key(text@) ==> r is None,
            exists|now_ms: i64| same_value(r, #[trigger] self.embeddings.fresh_value(text@, now_ms)),
    {
        self.embeddings.get(text)
    }

    /// Keeps `embedding` for `text` at `now_ms`.
    pub fn cache_embedding_at(&mut self, text: &str, embedding: E, now_ms: i64)
        requires
            old(self).wf(),
        ensures
            final(self).wf(),
            final(self).config == old(self).config,
            final(self).responses == old(self).responses,
            final(self).embeddings.view().contains_key(text@),
            final(self).embeddings.view()[text@] == (embedding, now_ms),
            after_insert(
                old(self).embeddings.view(),
                final(self).embeddings.view(),
                text@,
                embedding,
                now_ms,
                is_full(old(self).embeddings.entries@.len(), old(self).config.max_cache_size),
            ),
            final(self).embeddings.entries@.len() <= old(self).embeddings.entries@.len() + 1,
            old(self).embeddings.entries@.len() >= old(self).config.max_cache_size
                && old(self).embeddings.entries@.len() > 0
                ==> final(self).embeddings.entries@.len() <= old(self).embeddings.entries@.len(),
            old(self).embeddings.entries@.len() <= capacity(old(self).config.max_cache_size)
                ==> final(self).embeddings.entries@.len() <= capacity(old(self).config.max_cache_size),
    {
        self.embeddings.insert_at(text, embedding, now_ms);
    }

    /// Keeps `embedding` for `text` at the present time.
    pub fn cache_embedding(&mut self, text: &str, embedding: E)
        requires
            old(self).wf(),
        ensures
            final(self).wf(),
            final(self).config == old(self).config,
            final(self).responses == old(self).responses,
            final(self).embeddings.view().contains_key(text@),
            final(self).embeddings.view()[text@].0 == embedding,
            exists|now_ms: i64| #[trigger] after_insert(
                old(self).embeddings.view(),
                final(self).embeddings.view(),
                text@,
                embedding,
                now_ms,
                is_full(old(self).embeddings.entries@.len(), old(self).config.max_cache_size),
            ),
            final(self).embeddings.entries@.len() <= old(self).embeddings.entries@.len() + 1,
            old(self).embeddings.entries@.len() <= capacity(old(self).config.max_cache_size)
                ==> final(self).embeddings.entries@.len() <= capacity(old(self).config.max_cache_size),
    {
        self.embeddings.insert(text, embedding);
    }

    /// The caches are held in memory, so they are always reachable.
    pub fn is_healthy(&self) -> (r: bool)
        ensures
            r,
    {
        true
    }
}

} // verus!
