use vstd::prelude::*;

use lru::LruCache;
use vstd::slice::slice_to_vec;

use crate::lru_cache::{
    after_get, after_put, all_entries, bytes_opt, keys_distinct, lemma_after_get, lemma_after_put,
    lemma_distinct_preserved, lemma_lookup_good, lookup, lru_capacity, lru_entries, lru_get,
    lru_len, lru_new, lru_put, Entry, MAX_CACHE_SIZE,
};
use crate::profiles::{nodeprep_answer_clean, prep_bytes, prep_result, Profile};

verus! {

/// The number of results each profile's cache holds at most, unless
/// another capacity is given.
pub const DEFAULT_CACHE_SIZE: usize = 10_000;

/// The counter after one more event; it wraps to zero past `u64::MAX`.
pub open spec fn count_up(n: u64) -> u64 {
    if n == u64::MAX {
        0
    } else {
        (n + 1) as u64
    }
}

/// A cache entry of `profile` holds what preparing its key gives, and its
/// key is not empty; a Nodeprep key prepares to no prohibited character.
pub open spec fn correct_entry(profile: Profile, entry: Entry) -> bool {
    &&& entry.0.len() > 0
    &&& entry.1 == prep_result(profile, entry.0)
    &&& profile == Profile::Nodeprep ==> nodeprep_answer_clean(entry.0)
}

/// What one call of `PrepCaches::cached_prep` does, from the caches `pre`
/// to the caches `post`, preparing `input` with `profile` and answering
/// `result`:
/// - the answer is what preparing `input` gives;
/// - the empty input is answered at once, with no lookup and no change;
/// - a cached input counts a hit and becomes the most recently used entry;
/// - any other input counts a miss, and its result is stored in front;
/// - the caches of the other profiles and the capacity do not change.
pub open spec fn prep_transition(
    pre: PrepCaches,
    profile: Profile,
    input: Seq<u8>,
    post: PrepCaches,
    result: Option<Seq<u8>>,
) -> bool {
    &&& result == prep_result(profile, input)
    &&& post.capacity() == pre.capacity()
    &&& forall|q: Profile| q != profile ==> #[trigger] post.entries(q) == pre.entries(q)
    &&& if input.len() == 0 {
        &&& post.entries(profile) == pre.entries(profile)
        &&& post.hits() == pre.hits()
        &&& post.misses() == pre.misses()
    } else if lookup(pre.entries(profile), input) is Some {
        &&& post.entries(profile) == after_get(pre.entries(profile), input)
        &&& post.hits() == count_up(pre.hits())
        &&& post.misses() == pre.misses()
    } else {
        &&& post.entries(profile) == after_put(pre.entries(profile), pre.capacity(), input, result)
        &&& post.hits() == pre.hits()
        &&& post.misses() == count_up(pre.misses())
    }
}

/// The number of entries over all caches.
pub open spec fn total_entries(caches: PrepCaches) -> nat {
    caches.entries(Profile::Nodeprep).len() + caches.entries(Profile::Nameprep).len()
        + caches.entries(Profile::Resourceprep).len() + caches.entries(Profile::TolowerNofilter).len()
}

/// One result cache per profile, with hit and miss counters shared by all
/// of them.
pub struct PrepCaches {
    nodeprep: LruCache<Vec<u8>, Option<Vec<u8>>>,
    nameprep: LruCache<Vec<u8>, Option<Vec<u8>>>,
    resourceprep: LruCache<Vec<u8>, Option<Vec<u8>>>,
    tolower_nofilter: LruCache<Vec<u8>, Option<Vec<u8>>>,
    hits: u64,
    misses: u64,
}

impl PrepCaches {
    /// The cache of `profile`.
    closed spec fn cache(self, profile: Profile) -> LruCache<Vec<u8>, Option<Vec<u8>>> {
        match profile {
            Profile::Nodeprep => self.nodeprep,
            Profile::Nameprep => self.nameprep,
            Profile::Resourceprep => self.resourceprep,
            Profile::TolowerNofilter => self.tolower_nofilter,
        }
    }

    /// The cached inputs of `profile` with their results, most recently
    /// used first.
    pub closed spec fn entries(self, profile: Profile) -> Seq<Entry> {
        lru_entries(self.cache(profile))
    }

    /// How many results each profile's cache holds at most.
    pub closed spec fn capacity(self) -> nat {
        lru_capacity(self.nodeprep)
    }

    /// How many lookups found their input cached.
    pub closed spec fn hits(self) -> u64 {
        self.hits
    }

    /// How many lookups did not find their input cached.
    pub closed spec fn misses(self) -> u64 {
        self.misses
    }

    /// Each cache has the common capacity, at most that many entries, only
    /// correct entries, and each input at most once.
    pub closed spec fn wf(self) -> bool {
        &&& 1 <= self.capacity() <= MAX_CACHE_SIZE
        &&& forall|p: Profile| {
            &&& lru_capacity(#[trigger] self.cache(p)) == self.capacity()
            &&& self.entries(p).len() <= self.capacity()
            &&& all_entries(self.entries(p), |e: Entry| correct_entry(p, e))
            &&& keys_distinct(self.entries(p))
        }
    }

    /// Empty caches that hold `capacity` results each (one, if `capacity`
    /// is zero), with both counters at zero.
    pub fn new(capacity: usize) -> (c: PrepCaches)
        requires
            capacity <= MAX_CACHE_SIZE,
        ensures
            c.wf(),
            c.capacity() == if capacity == 0 { 1 } else { capacity as nat },
            forall|p: Profile| #[trigger] c.entries(p) == Seq::<Entry>::empty(),
            c.hits() == 0,
            c.misses() == 0,
    {
        let cap = if capacity == 0 { 1 } else { capacity };
        let c = PrepCaches {
            nodeprep: lru_new(cap),
            nameprep: lru_new(cap),
            resourceprep: lru_new(cap),
            tolower_nofilter: lru_new(cap),
            hits: 0,
            misses: 0,
        };
        assert forall|p: Profile| #[trigger] c.entries(p) == Seq::<Entry>::empty() by {
            match p {
                Profile::Nodeprep => {},
                Profile::Nameprep => {},
                Profile::Resourceprep => {},
                Profile::TolowerNofilter => {},
            }
        }
        c
    }

    /// Prepares the raw bytes `input` with `profile`, answering from the
    /// profile's cache where it can and storing what it computes there.
    pub fn cached_prep(&mut self, profile: Profile, input: &[u8]) -> (r: Option<Vec<u8>>)
        requires
            old(self).wf(),
        ensures
            final(self).wf(),
            prep_transition(*old(self), profile, input@, *final(self), bytes_opt(r)),
            profile == Profile::Nodeprep ==> nodeprep_answer_clean(input@),
    {
        if input.len() == 0 {
            return Some(Vec::new());
        }
        let key = slice_to_vec(input);
        let ghost pre = *self;
        let ghost good = |e: Entry| correct_entry(profile, e);
        proof {
            assert(lru_capacity(pre.cache(profile)) == pre.capacity());
            assert(all_entries(pre.entries(profile), good));
            assert(keys_distinct(pre.entries(profile)));
        }
        if let Some(result) = self.get_cached(profile, &key) {
            proof {
                lemma_lookup_good(pre.entries(profile), key@, good);
                assert(correct_entry(profile, (key@, bytes_opt(result))));
                lemma_after_get(pre.entries(profile), key@, good);
                lemma_distinct_preserved(pre.entries(profile), pre.capacity(), key@, None);
            }
            self.record_hit();
            proof {
                self.lemma_touched_wf(pre, profile);
                assert forall|q: Profile| q != profile implies #[trigger] self.entries(q) == pre.entries(q) by {
                    assert(self.cache(q) == pre.cache(q));
                }
            }
            return result;
        }
        self.record_miss();
        let result = prep_bytes(profile, input);
        let stored = copy_result(&result);
        self.store(profile, key, stored);
        proof {
            assert(good((key@, bytes_opt(stored))));
            lemma_after_put(pre.entries(profile), pre.capacity(), key@, bytes_opt(stored), good);
            lemma_distinct_preserved(pre.entries(profile), pre.capacity(), key@, bytes_opt(stored));
            self.lemma_touched_wf(pre, profile);
            assert forall|q: Profile| q != profile implies #[trigger] self.entries(q) == pre.entries(q) by {
                assert(self.cache(q) == pre.cache(q));
            }
        }
        result
    }

    /// Nodeprep (RFC 3920, Appendix A) of the raw bytes `input`, cached.
    pub fn nodeprep(&mut self, input: &[u8]) -> (r: Option<Vec<u8>>)
        requires
            old(self).wf(),
        ensures
            final(self).wf(),
            prep_transition(*old(self), Profile::Nodeprep, input@, *final(self), bytes_opt(r)),
            nodeprep_answer_clean(input@),
    {
        self.cached_prep(Profile::Nodeprep, input)
    }

    /// Nameprep (RFC 3491) of the raw bytes `input`, cached.
    pub fn nameprep(&mut self, input: &[u8]) -> (r: Option<Vec<u8>>)
        requires
            old(self).wf(),
        ensures
            final(self).wf(),
            prep_transition(*old(self), Profile::Nameprep, input@, *final(self), bytes_opt(r)),
    {
        self.cached_prep(Profile::Nameprep, input)
    }

    /// Resourceprep (RFC 3920, Appendix B) of the raw bytes `input`, cached.
    pub fn resourceprep(&mut self, input: &[u8]) -> (r: Option<Vec<u8>>)
        requires
            old(self).wf(),
        ensures
            final(self).wf(),
            prep_transition(*old(self), Profile::Resourceprep, input@, *final(self), bytes_opt(r)),
    {
        self.cached_prep(Profile::Resourceprep, input)
    }

    /// Lowercasing with prohibition checks: the same as Nameprep (same
    /// prohibited characters, same case folding), answered from and stored
    /// in the Nameprep cache.
    pub fn tolower(&mut self, input: &[u8]) -> (r: Option<Vec<u8>>)
        requires
            old(self).wf(),
        ensures
            final(self).wf(),
            prep_transition(*old(self), Profile::Nameprep, input@, *final(self), bytes_opt(r)),
    {
        self.cached_prep(Profile::Nameprep, input)
    }

    /// Lowercasing without prohibition checks (Table B.1 removal, case
    /// folding, NFC normalization and the bidirectional check), cached.
    pub fn tolower_nofilter(&mut self, input: &[u8]) -> (r: Option<Vec<u8>>)
        requires
            old(self).wf(),
        ensures
            final(self).wf(),
            prep_transition(*old(self), Profile::TolowerNofilter, input@, *final(self), bytes_opt(r)),
    {
        self.cached_prep(Profile::TolowerNofilter, input)
    }

    /// The total number of entries over all caches.
    pub fn cache_size(&self) -> (n: u64)
        requires
            self.wf(),
        ensures
            n == total_entries(*self),
            n <= 4 * self.capacity(),
    {
        proof {
            assert(self.entries(Profile::Nodeprep).len() <= self.capacity());
            assert(self.entries(Profile::Nameprep).len() <= self.capacity());
            assert(self.entries(Profile::Resourceprep).len() <= self.capacity());
            assert(self.entries(Profile::TolowerNofilter).len() <= self.capacity());
        }
        let mut total: u64 = 0;
        total += lru_len(&self.nodeprep) as u64;
        total += lru_len(&self.nameprep) as u64;
        total += lru_len(&self.resourceprep) as u64;
        total += lru_len(&self.tolower_nofilter) as u64;
        total
    }

    /// The hit and miss counters.
    pub fn cache_stats(&self) -> (r: (u64, u64))
        ensures
            r == (self.hits(), self.misses()),
    {
        (self.hits, self.misses)
    }

    /// Well-formed caches have room for at least one entry and hold no more
    /// than their capacity.
    pub proof fn lemma_wf_entries(self, profile: Profile)
        requires
            self.wf(),
        ensures
            self.capacity() >= 1,
            self.entries(profile).len() <= self.capacity(),
            keys_distinct(self.entries(profile)),
    {
    }

    /// In well-formed caches, an input found cached holds what preparing
    /// it gives.
    pub proof fn lemma_found_is_answer(self, profile: Profile, input: Seq<u8>)
        requires
            self.wf(),
            lookup(self.entries(profile), input) is Some,
        ensures
            lookup(self.entries(profile), input) == Some(prep_result(profile, input)),
    {
        let good = |e: Entry| correct_entry(profile, e);
        assert(all_entries(self.entries(profile), good));
        lemma_lookup_good(self.entries(profile), input, good);
        assert(correct_entry(profile, (input, lookup(self.entries(profile), input)->0)));
    }

    /// Caches that differ from the well-formed `pre` only in the cache of
    /// `profile`, where the entries stay within the capacity and correct,
    /// are well-formed.
    proof fn lemma_touched_wf(self, pre: PrepCaches, profile: Profile)
        requires
            pre.wf(),
            forall|q: Profile| q != profile ==> #[trigger] self.cache(q) == pre.cache(q),
            lru_capacity(self.cache(profile)) == lru_capacity(pre.cache(profile)),
            self.entries(profile).len() <= pre.capacity(),
            all_entries(self.entries(profile), |e: Entry| correct_entry(profile, e)),
            keys_distinct(self.entries(profile)),
        ensures
            self.wf(),
            self.capacity() == pre.capacity(),
    {
        assert(self.capacity() == pre.capacity()) by {
            assert(lru_capacity(pre.cache(Profile::Nodeprep)) == pre.capacity());
            if profile != Profile::Nodeprep {
                assert(self.cache(Profile::Nodeprep) == pre.cache(Profile::Nodeprep));
            }
        }
        assert forall|p: Profile| {
            &&& lru_capacity(#[trigger] self.cache(p)) == self.capacity()
            &&& self.entries(p).len() <= self.capacity()
            &&& all_entries(self.entries(p), |e: Entry| correct_entry(p, e))
            &&& keys_distinct(self.entries(p))
        } by {
            assert(lru_capacity(pre.cache(p)) == pre.capacity());
            if p != profile {
                assert(self.cache(p) == pre.cache(p));
            }
        }
    }

    /// The cached result of `profile` for `key`, which then becomes the
    /// most recently used entry.
    fn get_cached(&mut self, profile: Profile, key: &Vec<u8>) -> (r: Option<Option<Vec<u8>>>)
        ensures
            match r {
                Some(v) => lookup(old(self).entries(profile), key@) == Some(bytes_opt(v)),
                None => lookup(old(self).entries(profile), key@) is None,
            },
            final(self).entries(profile) == after_get(old(self).entries(profile), key@),
            forall|q: Profile| q != profile ==> #[trigger] final(self).cache(q) == old(self).cache(q),
            lru_capacity(final(self).cache(profile)) == lru_capacity(old(self).cache(profile)),
            final(self).hits == old(self).hits,
            final(self).misses == old(self).misses,
    {
        match profile {
            Profile::Nodeprep => lru_get(&mut self.nodeprep, key),
            Profile::Nameprep => lru_get(&mut self.nameprep, key),
            Profile::Resourceprep => lru_get(&mut self.resourceprep, key),
            Profile::TolowerNofilter => lru_get(&mut self.tolower_nofilter, key),
        }
    }

    /// Stores `value` under `key` in the cache of `profile`.
    fn store(&mut self, profile: Profile, key: Vec<u8>, value: Option<Vec<u8>>)
        ensures
            final(self).entries(profile) == after_put(
                old(self).entries(profile),
                lru_capacity(old(self).cache(profile)),
                key@,
                bytes_opt(value),
            ),
            forall|q: Profile| q != profile ==> #[trigger] final(self).cache(q) == old(self).cache(q),
            lru_capacity(final(self).cache(profile)) == lru_capacity(old(self).cache(profile)),
            final(self).hits == old(self).hits,
            final(self).misses == old(self).misses,
    {
        match profile {
            Profile::Nodeprep => lru_put(&mut self.nodeprep, key, value),
            Profile::Nameprep => lru_put(&mut self.nameprep, key, value),
            Profile::Resourceprep => lru_put(&mut self.resourceprep, key, value),
            Profile::TolowerNofilter => lru_put(&mut self.tolower_nofilter, key, value),
        }
    }

    fn record_hit(&mut self)
        ensures
            final(self).hits == count_up(old(self).hits),
            final(self).misses == old(self).misses,
            forall|q: Profile| #[trigger] final(self).cache(q) == old(self).cache(q),
    {
        self.hits = self.hits.wrapping_add(1);
    }

    fn record_miss(&mut self)
        ensures
            final(self).misses == count_up(old(self).misses),
            final(self).hits == old(self).hits,
            forall|q: Profile| #[trigger] final(self).cache(q) == old(self).cache(q),
    {
        self.misses = self.misses.wrapping_add(1);
    }
}

/// A copy of a result.
fn copy_result(r: &Option<Vec<u8>>) -> (c: Option<Vec<u8>>)
    ensures
        bytes_opt(c) == bytes_opt(*r),
{
    match r {
        Some(b) => Some(slice_to_vec(b.as_slice())),
        None => None,
    }
}

} // verus!
