use stringprep_rust::{PrepCaches, DEFAULT_CACHE_SIZE};

#[test]
fn empty_input_is_answered_at_once() {
    let mut c = PrepCaches::new(DEFAULT_CACHE_SIZE);
    assert_eq!(c.nodeprep(b""), Some(Vec::new()));
    assert_eq!(c.nameprep(b""), Some(Vec::new()));
    assert_eq!(c.resourceprep(b""), Some(Vec::new()));
    assert_eq!(c.tolower(b""), Some(Vec::new()));
    assert_eq!(c.tolower_nofilter(b""), Some(Vec::new()));
    assert_eq!(c.cache_stats(), (0, 0));
    assert_eq!(c.cache_size(), 0);
}

#[test]
fn invalid_utf8_is_an_error_and_cached() {
    let mut c = PrepCaches::new(DEFAULT_CACHE_SIZE);
    assert_eq!(c.nodeprep(&[0xff, 0x61]), None);
    assert_eq!(c.cache_stats(), (0, 1));
    assert_eq!(c.nodeprep(&[0xff, 0x61]), None);
    assert_eq!(c.cache_stats(), (1, 1));
    assert_eq!(c.cache_size(), 1);
}

#[test]
fn second_lookup_is_a_hit() {
    let mut c = PrepCaches::new(DEFAULT_CACHE_SIZE);
    assert_eq!(c.nodeprep(b"User"), Some(b"user".to_vec()));
    assert_eq!(c.cache_stats(), (0, 1));
    assert_eq!(c.nodeprep(b"User"), Some(b"user".to_vec()));
    assert_eq!(c.cache_stats(), (1, 1));
}

#[test]
fn errors_are_cached() {
    let mut c = PrepCaches::new(DEFAULT_CACHE_SIZE);
    assert_eq!(c.nodeprep(b"a@b"), None);
    assert_eq!(c.nodeprep(b"a@b"), None);
    assert_eq!(c.cache_stats(), (1, 1));
}

#[test]
fn profiles_have_separate_caches() {
    let mut c = PrepCaches::new(DEFAULT_CACHE_SIZE);
    assert_eq!(c.nodeprep(b"Abc"), Some(b"abc".to_vec()));
    assert_eq!(c.resourceprep(b"Abc"), Some(b"Abc".to_vec()));
    assert_eq!(c.tolower_nofilter(b"Abc"), Some(b"abc".to_vec()));
    assert_eq!(c.cache_stats(), (0, 3));
    assert_eq!(c.cache_size(), 3);
}

#[test]
fn tolower_shares_the_nameprep_cache() {
    let mut c = PrepCaches::new(DEFAULT_CACHE_SIZE);
    assert_eq!(c.nameprep(b"Host.Example"), Some(b"host.example".to_vec()));
    assert_eq!(c.tolower(b"Host.Example"), Some(b"host.example".to_vec()));
    assert_eq!(c.cache_stats(), (1, 1));
    assert_eq!(c.cache_size(), 1);
}

#[test]
fn zero_capacity_holds_one_entry() {
    let mut c = PrepCaches::new(0);
    assert_eq!(c.nodeprep(b"a"), Some(b"a".to_vec()));
    assert_eq!(c.nodeprep(b"b"), Some(b"b".to_vec()));
    assert_eq!(c.cache_size(), 1);
    assert_eq!(c.nodeprep(b"a"), Some(b"a".to_vec()));
    assert_eq!(c.cache_stats(), (0, 3));
}

#[test]
fn least_recently_used_is_evicted() {
    let mut c = PrepCaches::new(2);
    c.nodeprep(b"a");
    c.nodeprep(b"b");
    // "a" becomes the most recently used entry.
    c.nodeprep(b"a");
    assert_eq!(c.cache_stats(), (1, 2));
    // The cache is full: "b" is evicted.
    c.nodeprep(b"c");
    assert_eq!(c.cache_stats(), (1, 3));
    assert_eq!(c.cache_size(), 2);
    c.nodeprep(b"a");
    assert_eq!(c.cache_stats(), (2, 3));
    c.nodeprep(b"b");
    assert_eq!(c.cache_stats(), (2, 4));
}

#[test]
fn cached_answer_matches_fresh_answer() {
    let mut warm = PrepCaches::new(DEFAULT_CACHE_SIZE);
    let first = warm.tolower_nofilter(b"\xC3\x84B");
    let second = warm.tolower_nofilter(b"\xC3\x84B");
    let mut cold = PrepCaches::new(DEFAULT_CACHE_SIZE);
    let fresh = cold.tolower_nofilter(b"\xC3\x84B");
    assert_eq!(first, Some("\u{00E4}b".as_bytes().to_vec()));
    assert_eq!(first, second);
    assert_eq!(first, fresh);
}

#[test]
fn size_counts_all_caches() {
    let mut c = PrepCaches::new(DEFAULT_CACHE_SIZE);
    c.nodeprep(b"n1");
    c.nodeprep(b"n2");
    c.nameprep(b"m1");
    c.resourceprep(b"r1");
    c.tolower_nofilter(b"t1");
    c.tolower_nofilter(b"t2");
    assert_eq!(c.cache_size(), 6);
    assert_eq!(c.cache_stats(), (0, 6));
}

#[test]
fn size_stays_within_capacity() {
    let mut c = PrepCaches::new(3);
    let inputs: [&[u8]; 5] = [b"a", b"b", b"c", b"d", b"e"];
    for input in inputs {
        c.nodeprep(input);
        c.nameprep(input);
        c.resourceprep(input);
        c.tolower_nofilter(input);
    }
    assert_eq!(c.cache_size(), 12);
    assert_eq!(c.cache_stats(), (0, 20));
}
