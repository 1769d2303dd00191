use vstd::prelude::*;

use lru::LruCache;

verus! {

/// A cached key and what was computed for it.
pub type Entry = (Seq<u8>, Option<Seq<u8>>);

#[verifier::external_type_specification]
#[verifier::external_body]
#[verifier::reject_recursive_types(K)]
#[verifier::reject_recursive_types(V)]
#[verifier::reject_recursive_types(S)]
pub struct ExLruCache<K, V, S>(LruCache<K, V, S>);

/// The entries of a result cache, most recently used first.
pub uninterp spec fn lru_entries(cache: LruCache<Vec<u8>, Option<Vec<u8>>>) -> Seq<Entry>;

/// The number of entries that a result cache was made to hold at most.
pub uninterp spec fn lru_capacity(cache: LruCache<Vec<u8>, Option<Vec<u8>>>) -> nat;

pub open spec fn bytes_opt(v: Option<Vec<u8>>) -> Option<Seq<u8>> {
    match v {
        Some(b) => Some(b@),
        None => None,
    }
}

/// The value stored under `key`, if any (the first match, from the front).
pub open spec fn lookup(entries: Seq<Entry>, key: Seq<u8>) -> Option<Option<Seq<u8>>>
    decreases entries.len(),
{
    if entries.len() == 0 {
        None
    } else if entries[0].0 == key {
        Some(entries[0].1)
    } else {
        lookup(entries.drop_first(), key)
    }
}

/// `entries` without the entries stored under `key`.
pub open spec fn remove_key(entries: Seq<Entry>, key: Seq<u8>) -> Seq<Entry>
    decreases entries.len(),
{
    if entries.len() == 0 {
        entries
    } else if entries[0].0 == key {
        remove_key(entries.drop_first(), key)
    } else {
        seq![entries[0]] + remove_key(entries.drop_first(), key)
    }
}

/// The entries after a lookup of `key`: a found entry moves to the front.
pub open spec fn after_get(entries: Seq<Entry>, key: Seq<u8>) -> Seq<Entry> {
    match lookup(entries, key) {
        Some(v) => seq![(key, v)] + remove_key(entries, key),
        None => entries,
    }
}

/// The entries after storing `value` under `key` in a cache that holds at
/// most `cap` entries: the new entry goes to the front, replacing the old
/// entry under `key`, or else, when the cache is full, the least recently
/// used entry.
pub open spec fn after_put(entries: Seq<Entry>, cap: nat, key: Seq<u8>, value: Option<Seq<u8>>) -> Seq<Entry> {
    if lookup(entries, key) is Some {
        seq![(key, value)] + remove_key(entries, key)
    } else if entries.len() == cap {
        seq![(key, value)] + entries.drop_last()
    } else {
        seq![(key, value)] + entries
    }
}

/// Every entry of `entries` satisfies `good`.
pub open spec fn all_entries(entries: Seq<Entry>, good: spec_fn(Entry) -> bool) -> bool {
    forall|i: int| 0 <= i < entries.len() ==> good(#[trigger] entries[i])
}

/// A value found under `key` belongs to an entry of `entries`.
pub proof fn lemma_lookup_good(entries: Seq<Entry>, key: Seq<u8>, good: spec_fn(Entry) -> bool)
    requires
        all_entries(entries, good),
        lookup(entries, key) is Some,
    ensures
        good((key, lookup(entries, key)->0)),
    decreases entries.len(),
{
    if entries[0].0 != key {
        let rest = entries.drop_first();
        assert forall|i: int| 0 <= i < rest.len() implies good(#[trigger] rest[i]) by {
            assert(rest[i] == entries[i + 1]);
        }
        lemma_lookup_good(rest, key, good);
    } else {
        assert(good(entries[0]));
    }
}

/// Removing the entries under a key keeps every remaining entry good, and
/// leaves fewer entries when one was found.
pub proof fn lemma_remove_key(entries: Seq<Entry>, key: Seq<u8>, good: spec_fn(Entry) -> bool)
    ensures
        all_entries(entries, good) ==> all_entries(remove_key(entries, key), good),
        remove_key(entries, key).len() <= entries.len(),
        lookup(entries, key) is Some ==> remove_key(entries, key).len() < entries.len(),
        lookup(remove_key(entries, key), key) is None,
    decreases entries.len(),
{
    if entries.len() > 0 {
        let rest = entries.drop_first();
        lemma_remove_key(rest, key, good);
        if all_entries(entries, good) {
            assert forall|i: int| 0 <= i < rest.len() implies good(#[trigger] rest[i]) by {
                assert(rest[i] == entries[i + 1]);
            }
        }
        if entries[0].0 != key {
            let r = seq![entries[0]] + remove_key(rest, key);
            assert(r.drop_first() =~= remove_key(rest, key));
            if all_entries(entries, good) {
                assert forall|i: int| 0 <= i < r.len() implies good(#[trigger] r[i]) by {
                    if i == 0 {
                        assert(good(entries[0]));
                    } else {
                        assert(r[i] == remove_key(rest, key)[i - 1]);
                    }
                }
            }
        }
    }
}

/// The key of the front entry is found, with the front entry's value.
pub proof fn lemma_lookup_front(entry: Entry, rest: Seq<Entry>)
    ensures
        lookup(seq![entry] + rest, entry.0) == Some(entry.1),
{
    assert((seq![entry] + rest)[0] == entry);
}

/// Moving a found entry to the front keeps the entries good and their
/// number.
pub proof fn lemma_after_get(entries: Seq<Entry>, key: Seq<u8>, good: spec_fn(Entry) -> bool)
    requires
        all_entries(entries, good),
        lookup(entries, key) is Some,
    ensures
        all_entries(after_get(entries, key), good),
        after_get(entries, key).len() <= entries.len(),
{
    lemma_lookup_good(entries, key, good);
    lemma_remove_key(entries, key, good);
    lemma_front_good((key, lookup(entries, key)->0), remove_key(entries, key), good);
}

/// Storing a good entry keeps the entries good and within the capacity.
pub proof fn lemma_after_put(
    entries: Seq<Entry>,
    cap: nat,
    key: Seq<u8>,
    value: Option<Seq<u8>>,
    good: spec_fn(Entry) -> bool,
)
    requires
        all_entries(entries, good),
        good((key, value)),
        entries.len() <= cap,
        cap >= 1,
    ensures
        all_entries(after_put(entries, cap, key, value), good),
        after_put(entries, cap, key, value).len() <= cap,
{
    lemma_remove_key(entries, key, good);
    if lookup(entries, key) is Some {
        lemma_front_good((key, value), remove_key(entries, key), good);
    } else if entries.len() == cap {
        let rest = entries.drop_last();
        assert forall|i: int| 0 <= i < rest.len() implies good(#[trigger] rest[i]) by {
            assert(rest[i] == entries[i]);
        }
        lemma_front_good((key, value), rest, good);
    } else {
        lemma_front_good((key, value), entries, good);
    }
}

/// A good entry in front of good entries.
pub proof fn lemma_front_good(entry: Entry, rest: Seq<Entry>, good: spec_fn(Entry) -> bool)
    requires
        good(entry),
        all_entries(rest, good),
    ensures
        all_entries(seq![entry] + rest, good),
{
    let s = seq![entry] + rest;
    assert forall|i: int| 0 <= i < s.len() implies good(#[trigger] s[i]) by {
        if i > 0 {
            assert(s[i] == rest[i - 1]);
        }
    }
}

/// Dropping the last entry keeps a missing key missing.
pub proof fn lemma_absent_drop_last(e: Seq<Entry>, key: Seq<u8>)
    requires
        e.len() > 0,
        lookup(e, key) is None,
    ensures
        lookup(e.drop_last(), key) is None,
    decreases e.len(),
{
    if e.len() > 1 {
        lemma_absent_drop_last(e.drop_first(), key);
        assert(e.drop_last().drop_first() =~= e.drop_first().drop_last());
        assert(e.drop_last()[0] == e[0]);
    } else if e.len() == 1 {
        assert(e.drop_last().len() == 0);
    }
}

/// Removing a missing key changes nothing.
pub proof fn lemma_absent_remove_key(e: Seq<Entry>, key: Seq<u8>)
    requires
        lookup(e, key) is None,
    ensures
        remove_key(e, key) == e,
    decreases e.len(),
{
    if e.len() > 0 {
        lemma_absent_remove_key(e.drop_first(), key);
        assert(seq![e[0]] + e.drop_first() =~= e);
    }
}

/// No two entries share a key.
pub open spec fn keys_distinct(entries: Seq<Entry>) -> bool {
    forall|i: int, j: int| 0 <= i < j < entries.len() ==> #[trigger] entries[i].0 != #[trigger] entries[j].0
}

/// A key is missing exactly when no entry holds it.
pub proof fn lemma_lookup_none(entries: Seq<Entry>, key: Seq<u8>)
    ensures
        lookup(entries, key) is None <==> forall|i: int| 0 <= i < entries.len() ==> #[trigger] entries[i].0 != key,
    decreases entries.len(),
{
    if entries.len() > 0 {
        let rest = entries.drop_first();
        lemma_lookup_none(rest, key);
        assert forall|i: int| 0 < i < entries.len() implies #[trigger] entries[i] == rest[i - 1] by {}
        if lookup(entries, key) is None {
            assert forall|i: int| 0 <= i < entries.len() implies #[trigger] entries[i].0 != key by {
                if i > 0 {
                    assert(entries[i] == rest[i - 1]);
                }
            }
        }
        if forall|i: int| 0 <= i < entries.len() ==> #[trigger] entries[i].0 != key {
            assert(entries[0].0 != key);
            assert forall|i: int| 0 <= i < rest.len() implies #[trigger] rest[i].0 != key by {
                assert(rest[i] == entries[i + 1]);
            }
        }
    }
}

/// An entry in front of distinct entries that lack its key keeps the keys
/// distinct.
pub proof fn lemma_front_distinct(entry: Entry, rest: Seq<Entry>)
    requires
        keys_distinct(rest),
        lookup(rest, entry.0) is None,
    ensures
        keys_distinct(seq![entry] + rest),
{
    lemma_lookup_none(rest, entry.0);
    let s = seq![entry] + rest;
    assert forall|i: int, j: int| 0 <= i < j < s.len() implies #[trigger] s[i].0 != #[trigger] s[j].0 by {
        assert(s[j] == rest[j - 1]);
        if i > 0 {
            assert(s[i] == rest[i - 1]);
        }
    }
}

/// Removing a key keeps missing keys missing and distinct keys distinct.
pub proof fn lemma_remove_key_distinct(entries: Seq<Entry>, key: Seq<u8>)
    ensures
        forall|other: Seq<u8>| lookup(entries, other) is None ==> #[trigger] lookup(remove_key(entries, key), other) is None,
        keys_distinct(entries) ==> keys_distinct(remove_key(entries, key)),
    decreases entries.len(),
{
    if entries.len() > 0 {
        let rest = entries.drop_first();
        lemma_remove_key_distinct(rest, key);
        if keys_distinct(entries) {
            assert(keys_distinct(rest)) by {
                assert forall|i: int, j: int| 0 <= i < j < rest.len() implies #[trigger] rest[i].0 != #[trigger] rest[j].0 by {
                    assert(rest[i] == entries[i + 1]);
                    assert(rest[j] == entries[j + 1]);
                }
            }
            lemma_lookup_none(rest, entries[0].0);
            assert forall|i: int| 0 <= i < rest.len() implies #[trigger] rest[i].0 != entries[0].0 by {
                assert(rest[i] == entries[i + 1]);
            }
            if entries[0].0 != key {
                lemma_front_distinct(entries[0], remove_key(rest, key));
            }
        }
        assert forall|other: Seq<u8>| lookup(entries, other) is None implies #[trigger] lookup(
            remove_key(entries, key),
            other,
        ) is None by {
            assert(lookup(rest, other) is None);
            assert(lookup(remove_key(rest, key), other) is None);
            if entries[0].0 != key {
                let r = seq![entries[0]] + remove_key(rest, key);
                assert(r[0] == entries[0]);
                assert(r.drop_first() =~= remove_key(rest, key));
            }
        }
    }
}

/// Dropping the last entry keeps distinct keys distinct.
pub proof fn lemma_drop_last_distinct(entries: Seq<Entry>)
    requires
        entries.len() > 0,
        keys_distinct(entries),
    ensures
        keys_distinct(entries.drop_last()),
{
    let d = entries.drop_last();
    assert forall|i: int, j: int| 0 <= i < j < d.len() implies #[trigger] d[i].0 != #[trigger] d[j].0 by {
        assert(d[i] == entries[i]);
        assert(d[j] == entries[j]);
    }
}

/// A lookup and a store both keep the keys distinct.
pub proof fn lemma_distinct_preserved(entries: Seq<Entry>, cap: nat, key: Seq<u8>, value: Option<Seq<u8>>)
    requires
        keys_distinct(entries),
        cap >= 1,
    ensures
        keys_distinct(after_get(entries, key)),
        keys_distinct(after_put(entries, cap, key, value)),
{
    lemma_remove_key(entries, key, |e: Entry| true);
    lemma_remove_key_distinct(entries, key);
    if lookup(entries, key) is Some {
        lemma_front_distinct((key, lookup(entries, key)->0), remove_key(entries, key));
        lemma_front_distinct((key, value), remove_key(entries, key));
    } else if entries.len() == cap {
        lemma_absent_drop_last(entries, key);
        lemma_drop_last_distinct(entries);
        lemma_front_distinct((key, value), entries.drop_last());
    } else {
        lemma_front_distinct((key, value), entries);
    }
}

/// The largest capacity a result cache is made with. The cache reserves
/// room for all its entries in a hash map at once, and the size of that
/// reservation must not overflow `usize`; at this bound it stays far below
/// `isize::MAX` on 32-bit as on 64-bit targets.
pub const MAX_CACHE_SIZE: usize = 0x100_0000;

/// `LruCache::new`: an empty cache that holds at most `cap` entries.
/// Claimed: the cache starts empty, with capacity `cap`.
#[verifier::external_body]
pub(crate) fn lru_new(cap: usize) -> (cache: LruCache<Vec<u8>, Option<Vec<u8>>>)
    requires
        0 < cap <= MAX_CACHE_SIZE,
    ensures
        lru_entries(cache) == Seq::<Entry>::empty(),
        lru_capacity(cache) == cap,
{
    LruCache::new(std::num::NonZeroUsize::new(cap).unwrap())
}

/// `LruCache::get`: the value under `key`, cloned.
/// Claimed: the value under `key` is returned, and a found entry becomes
/// the most recently used; nothing else changes.
#[verifier::external_body]
pub(crate) fn lru_get(cache: &mut LruCache<Vec<u8>, Option<Vec<u8>>>, key: &Vec<u8>) -> (r: Option<Option<Vec<u8>>>)
    ensures
        match r {
            Some(v) => lookup(lru_entries(*old(cache)), key@) == Some(bytes_opt(v)),
            None => lookup(lru_entries(*old(cache)), key@) is None,
        },
        lru_entries(*final(cache)) == after_get(lru_entries(*old(cache)), key@),
        lru_capacity(*final(cache)) == lru_capacity(*old(cache)),
{
    cache.get(key).cloned()
}

/// `LruCache::put`: stores `value` under `key`.
/// Claimed: the entries change as `after_put` says, the capacity does not.
#[verifier::external_body]
pub(crate) fn lru_put(cache: &mut LruCache<Vec<u8>, Option<Vec<u8>>>, key: Vec<u8>, value: Option<Vec<u8>>)
    ensures
        lru_entries(*final(cache)) == after_put(
            lru_entries(*old(cache)),
            lru_capacity(*old(cache)),
            key@,
            bytes_opt(value),
        ),
        lru_capacity(*final(cache)) == lru_capacity(*old(cache)),
{
    cache.put(key, value);
}

/// `LruCache::len`: the number of entries.
#[verifier::external_body]
pub(crate) fn lru_len(cache: &LruCache<Vec<u8>, Option<Vec<u8>>>) -> (n: usize)
    ensures
        n == lru_entries(*cache).len(),
{
    cache.len()
}

} // verus!
