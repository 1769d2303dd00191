use vstd::prelude::*;

use vstd::utf8::{decode_utf8, encode_utf8, valid_utf8};

use crate::bidi::{bidi_ok, has_ral};
use crate::caches::{count_up, prep_transition, total_entries, PrepCaches, DEFAULT_CACHE_SIZE};
use crate::lru_cache::{
    after_get, lemma_absent_drop_last, lemma_absent_remove_key, lemma_lookup_front, lemma_remove_key,
    keys_distinct, lookup, remove_key, Entry,
};
use crate::profiles::{
    nfc_normalize, prep_result, profile_result, spec_tolower_nofilter, std_to_lowercase,
    stringprep_nameprep, stringprep_nodeprep, stringprep_resourceprep, without_b1, Profile,
};
use crate::tables::{spec_is_b1, spec_is_l, spec_is_ral};

verus! {

/// The cache never changes an answer: two calls with the same profile and
/// input answer alike, whatever the two caches held.
pub proof fn law_answer_independent_of_cache(
    pre1: PrepCaches,
    post1: PrepCaches,
    r1: Option<Seq<u8>>,
    pre2: PrepCaches,
    post2: PrepCaches,
    r2: Option<Seq<u8>>,
    profile: Profile,
    input: Seq<u8>,
)
    requires
        pre1.wf(),
        pre2.wf(),
        prep_transition(pre1, profile, input, post1, r1),
        prep_transition(pre2, profile, input, post2, r2),
    ensures
        r1 == r2,
        r1 == prep_result(profile, input),
{
}

/// After a call with a non-empty input, that input is the most recently
/// used entry of its profile's cache, holding the answer just given.
pub proof fn law_answer_is_cached(
    pre: PrepCaches,
    post: PrepCaches,
    r: Option<Seq<u8>>,
    profile: Profile,
    input: Seq<u8>,
)
    requires
        pre.wf(),
        prep_transition(pre, profile, input, post, r),
        input.len() > 0,
    ensures
        post.entries(profile).len() > 0,
        post.entries(profile)[0] == (input, r),
        lookup(post.entries(profile), input) == Some(r),
        lookup(post.entries(profile).drop_first(), input) is None,
{
    let e = pre.entries(profile);
    let post_e = post.entries(profile);
    pre.lemma_wf_entries(profile);
    lemma_remove_key(e, input, |x: Entry| true);
    if lookup(e, input) is Some {
        pre.lemma_found_is_answer(profile, input);
        lemma_lookup_front((input, r), remove_key(e, input));
        assert(post_e.drop_first() =~= remove_key(e, input));
    } else if e.len() == pre.capacity() {
        lemma_absent_drop_last(e, input);
        lemma_lookup_front((input, r), e.drop_last());
        assert(post_e.drop_first() =~= e.drop_last());
    } else {
        lemma_lookup_front((input, r), e);
        assert(post_e.drop_first() =~= e);
    }
}

/// Asking twice in a row for the same non-empty input: the second call is
/// a hit, gives the same answer and leaves the entries as they were.
pub proof fn law_repeat_is_hit(
    s0: PrepCaches,
    s1: PrepCaches,
    r1: Option<Seq<u8>>,
    s2: PrepCaches,
    r2: Option<Seq<u8>>,
    profile: Profile,
    input: Seq<u8>,
)
    requires
        s0.wf(),
        s1.wf(),
        input.len() > 0,
        prep_transition(s0, profile, input, s1, r1),
        prep_transition(s1, profile, input, s2, r2),
    ensures
        r2 == r1,
        s2.hits() == count_up(s1.hits()),
        s2.misses() == s1.misses(),
        s2.entries(profile) == s1.entries(profile),
{
    law_answer_is_cached(s0, s1, r1, profile, input);
    let e = s1.entries(profile);
    s1.lemma_found_is_answer(profile, input);
    lemma_front_stays(e, input);
}

/// A miss stores its answer in front; only when the cache was full does it
/// evict an entry, and then the least recently used one.
pub proof fn law_miss_evicts_least_recent(
    pre: PrepCaches,
    post: PrepCaches,
    r: Option<Seq<u8>>,
    profile: Profile,
    input: Seq<u8>,
)
    requires
        pre.wf(),
        prep_transition(pre, profile, input, post, r),
        input.len() > 0,
        lookup(pre.entries(profile), input) is None,
    ensures
        pre.entries(profile).len() == pre.capacity() ==> post.entries(profile) == seq![(input, r)]
            + pre.entries(profile).drop_last(),
        pre.entries(profile).len() < pre.capacity() ==> post.entries(profile) == seq![(input, r)]
            + pre.entries(profile),
        post.entries(profile).len() <= post.capacity(),
{
    pre.lemma_wf_entries(profile);
}

/// Each call with a non-empty input counts exactly one lookup: a hit when
/// the input was cached, else a miss.
pub proof fn law_one_count_per_lookup(
    pre: PrepCaches,
    post: PrepCaches,
    r: Option<Seq<u8>>,
    profile: Profile,
    input: Seq<u8>,
)
    requires
        prep_transition(pre, profile, input, post, r),
        input.len() > 0,
    ensures
        lookup(pre.entries(profile), input) is Some ==> post.hits() == count_up(pre.hits())
            && post.misses() == pre.misses(),
        lookup(pre.entries(profile), input) is None ==> post.misses() == count_up(pre.misses())
            && post.hits() == pre.hits(),
{
}

/// No cache ever holds more entries than the capacity, which is at least
/// one, and no cache holds an input twice.
pub proof fn law_within_capacity(caches: PrepCaches, profile: Profile)
    requires
        caches.wf(),
    ensures
        caches.capacity() >= 1,
        caches.entries(profile).len() <= caches.capacity(),
        keys_distinct(caches.entries(profile)),
{
    caches.lemma_wf_entries(profile);
}

/// The four caches together hold at most four times the capacity; with
/// the default capacity, which no call changes, at most 40 000 entries.
pub proof fn law_total_size(caches: PrepCaches)
    requires
        caches.wf(),
    ensures
        total_entries(caches) <= 4 * caches.capacity(),
        caches.capacity() == DEFAULT_CACHE_SIZE ==> total_entries(caches) <= 40_000,
{
    caches.lemma_wf_entries(Profile::Nodeprep);
    caches.lemma_wf_entries(Profile::Nameprep);
    caches.lemma_wf_entries(Profile::Resourceprep);
    caches.lemma_wf_entries(Profile::TolowerNofilter);
}

/// An answer of the no-filter lowercasing is the UTF-8 encoding of a string
/// that passes the bidirectional check.
pub proof fn law_nofilter_passes_bidi(s: Seq<char>)
    ensures
        spec_tolower_nofilter(s) matches Some(b) ==> exists|n: Seq<char>|
            bidi_ok(n) && b == #[trigger] encode_utf8(n),
{
}

/// A string without RandALCat characters always passes the bidirectional
/// check.
pub proof fn law_no_ral_passes_bidi(s: Seq<char>)
    requires
        !has_ral(s),
    ensures
        bidi_ok(s),
{
}

/// Table B.1 removal leaves no Table B.1 character, keeps every other
/// character in order, and changes nothing when repeated.
pub proof fn law_b1_removal(s: Seq<char>)
    ensures
        forall|i: int| 0 <= i < without_b1(s).len() ==> !spec_is_b1(#[trigger] without_b1(s)[i]),
        without_b1(without_b1(s)) == without_b1(s),
        (forall|i: int| 0 <= i < s.len() ==> !spec_is_b1(#[trigger] s[i])) ==> without_b1(s) == s,
{
    let f = |c: char| !spec_is_b1(c);
    let t = without_b1(s);
    assert forall|i: int| 0 <= i < t.len() implies !spec_is_b1(#[trigger] t[i]) by {
        s.lemma_filter_pred(f, i);
    }
    lemma_filter_keeps_all(t, f);
    lemma_filter_keeps_all(s, f);
}

/// Filtering a sequence all of whose items pass changes nothing.
proof fn lemma_filter_keeps_all(s: Seq<char>, f: spec_fn(char) -> bool)
    ensures
        (forall|i: int| 0 <= i < s.len() ==> f(#[trigger] s[i])) ==> s.filter(f) == s,
    decreases s.len(),
{
    reveal_with_fuel(Seq::filter, 1);
    if s.len() > 0 {
        lemma_filter_keeps_all(s.drop_last(), f);
        if forall|i: int| 0 <= i < s.len() ==> f(#[trigger] s[i]) {
            assert(f(s[s.len() - 1]));
            assert(s.drop_last().push(s.last()) =~= s);
        }
    } else {
        assert(s.filter(f) =~= s);
    }
}

/// When the front entry holds `key`, a lookup of `key` changes nothing.
proof fn lemma_front_stays(e: Seq<Entry>, key: Seq<u8>)
    requires
        e.len() > 0,
        e[0].0 == key,
        lookup(e.drop_first(), key) is None,
    ensures
        after_get(e, key) == e,
{
    lemma_absent_remove_key(e.drop_first(), key);
    assert(seq![e[0]] + e.drop_first() =~= e);
}


/// The empty input prepares to itself under every profile, and bytes that
/// are not UTF-8 are an error under every profile.
pub proof fn law_empty_and_invalid_input(profile: Profile, input: Seq<u8>)
    ensures
        input.len() == 0 ==> prep_result(profile, input) == Some(Seq::<u8>::empty()),
        input.len() > 0 && !valid_utf8(input) ==> prep_result(profile, input) is None,
{
}

/// Nodeprep answers with the UTF-8 of what `stringprep::nodeprep` returns
/// for the string, and is an error exactly when `stringprep::nodeprep`
/// fails.
pub proof fn law_nodeprep_is_stringprep_nodeprep(s: Seq<char>, input: Seq<u8>)
    ensures
        profile_result(Profile::Nodeprep, s) == match stringprep_nodeprep(s) {
            Some(n) => Some(encode_utf8(n)),
            None => None,
        },
        profile_result(Profile::Nodeprep, s) is None <==> stringprep_nodeprep(s) is None,
        input.len() > 0 && valid_utf8(input) ==> prep_result(Profile::Nodeprep, input) == match stringprep_nodeprep(decode_utf8(input)) {
            Some(n) => Some(encode_utf8(n)),
            None => None,
        },
{
}

/// Nameprep (and so `tolower`, which shares its profile) answers with the
/// UTF-8 of what `stringprep::nameprep` returns for the string, and is an
/// error exactly when `stringprep::nameprep` fails.
pub proof fn law_nameprep_is_stringprep_nameprep(s: Seq<char>, input: Seq<u8>)
    ensures
        profile_result(Profile::Nameprep, s) == match stringprep_nameprep(s) {
            Some(n) => Some(encode_utf8(n)),
            None => None,
        },
        profile_result(Profile::Nameprep, s) is None <==> stringprep_nameprep(s) is None,
        input.len() > 0 && valid_utf8(input) ==> prep_result(Profile::Nameprep, input) == match stringprep_nameprep(decode_utf8(input)) {
            Some(n) => Some(encode_utf8(n)),
            None => None,
        },
{
}

/// Resourceprep answers with the UTF-8 of what `stringprep::resourceprep`
/// returns for the string, and is an error exactly when
/// `stringprep::resourceprep` fails.
pub proof fn law_resourceprep_is_stringprep_resourceprep(s: Seq<char>, input: Seq<u8>)
    ensures
        profile_result(Profile::Resourceprep, s) == match stringprep_resourceprep(s) {
            Some(n) => Some(encode_utf8(n)),
            None => None,
        },
        profile_result(Profile::Resourceprep, s) is None <==> stringprep_resourceprep(s) is None,
        input.len() > 0 && valid_utf8(input) ==> prep_result(Profile::Resourceprep, input) == match stringprep_resourceprep(decode_utf8(input)) {
            Some(n) => Some(encode_utf8(n)),
            None => None,
        },
{
}

/// The no-filter lowercasing of `s` removes the characters of Table B.1,
/// applies `str::to_lowercase`, then NFC normalization, and answers with the
/// UTF-8 of the result exactly when it obeys the bidirectional rule: a
/// string holding a RandALCat character starts and ends with one and holds
/// no LCat character.
pub proof fn law_nofilter_pipeline(s: Seq<char>)
    ensures
        ({
            let n = nfc_normalize(std_to_lowercase(s.filter(|c: char| !spec_is_b1(c))));
            let rule = (exists|i: int| 0 <= i < n.len() && spec_is_ral(#[trigger] n[i] as u32)) ==> {
                &&& spec_is_ral(n[0] as u32)
                &&& spec_is_ral(n[n.len() - 1] as u32)
                &&& forall|i: int| 0 <= i < n.len() ==> !spec_is_l(#[trigger] n[i] as u32)
            };
            &&& profile_result(Profile::TolowerNofilter, s) == spec_tolower_nofilter(s)
            &&& spec_tolower_nofilter(s) == if rule {
                Some(encode_utf8(n))
            } else {
                None
            }
        }),
{
    assert(without_b1(s) =~= s.filter(|c: char| !spec_is_b1(c)));
}

/// The bidirectional rule: a string that holds a RandALCat character must
/// start and end with one and hold no LCat character; any other string
/// passes.
pub proof fn law_bidi_rule(s: Seq<char>)
    ensures
        bidi_ok(s) <==> ((exists|i: int| 0 <= i < s.len() && spec_is_ral(#[trigger] s[i] as u32)) ==> {
            &&& spec_is_ral(s[0] as u32)
            &&& spec_is_ral(s[s.len() - 1] as u32)
            &&& forall|i: int| 0 <= i < s.len() ==> !spec_is_l(#[trigger] s[i] as u32)
        }),
{
}

/// RandALCat is exactly RFC 3454 Table D.1.
pub proof fn law_ral_is_table_d1(cp: u32)
    ensures
        spec_is_ral(cp) <==> {
            ||| cp == 0x05BE
            ||| cp == 0x05C0
            ||| cp == 0x05C3
            ||| 0x05D0 <= cp <= 0x05EA
            ||| 0x05F0 <= cp <= 0x05F4
            ||| cp == 0x061B
            ||| cp == 0x061F
            ||| 0x0621 <= cp <= 0x063A
            ||| 0x0640 <= cp <= 0x064A
            ||| 0x066D <= cp <= 0x066F
            ||| 0x0671 <= cp <= 0x06D5
            ||| cp == 0x06DD
            ||| 0x06E5 <= cp <= 0x06E6
            ||| 0x06FA <= cp <= 0x06FE
            ||| 0x0700 <= cp <= 0x070D
            ||| cp == 0x0710
            ||| 0x0712 <= cp <= 0x072C
            ||| 0x0780 <= cp <= 0x07A5
            ||| cp == 0x07B1
            ||| cp == 0x200F
            ||| cp == 0xFB1D
            ||| 0xFB1F <= cp <= 0xFB28
            ||| 0xFB2A <= cp <= 0xFB36
            ||| 0xFB38 <= cp <= 0xFB3C
            ||| cp == 0xFB3E
            ||| 0xFB40 <= cp <= 0xFB41
            ||| 0xFB43 <= cp <= 0xFB44
            ||| 0xFB46 <= cp <= 0xFBB1
            ||| 0xFBD3 <= cp <= 0xFD3D
            ||| 0xFD50 <= cp <= 0xFD8F
            ||| 0xFD92 <= cp <= 0xFDC7
            ||| 0xFDF0 <= cp <= 0xFDFC
            ||| 0xFE70 <= cp <= 0xFE74
            ||| 0xFE76 <= cp <= 0xFEFC
        },
{
}

/// Table B.1 removal removes exactly the characters that RFC 3454 Table
/// B.1 lists.
pub proof fn law_b1_is_table_b1(c: char)
    ensures
        spec_is_b1(c) <==> {
            let cp = c as u32;
            ||| cp == 0x00AD
            ||| cp == 0x034F
            ||| cp == 0x1806
            ||| cp == 0x180B
            ||| cp == 0x180C
            ||| cp == 0x180D
            ||| cp == 0x200B
            ||| cp == 0x200C
            ||| cp == 0x200D
            ||| cp == 0x2060
            ||| 0xFE00 <= cp <= 0xFE0F
            ||| cp == 0xFEFF
        },
{
}

/// A string made only of Hebrew letters (U+05D0 to U+05EA) and Arabic
/// letters (U+0621 to U+063A, U+0641 to U+064A) passes the bidirectional
/// rule.
pub proof fn law_rtl_letters_pass_bidi(s: Seq<char>)
    requires
        forall|i: int| 0 <= i < s.len() ==> {
            let cp = #[trigger] s[i] as u32;
            ||| 0x05D0 <= cp <= 0x05EA
            ||| 0x0621 <= cp <= 0x063A
            ||| 0x0641 <= cp <= 0x064A
        },
    ensures
        bidi_ok(s),
{
    if s.len() > 0 {
        assert(s[0] == s[0]);
        assert(s[s.len() - 1] == s[s.len() - 1]);
    }
    assert forall|i: int| 0 <= i < s.len() implies !spec_is_l(#[trigger] s[i] as u32) by {}
}

/// A string that holds a Hebrew or Arabic letter together with an ASCII
/// letter fails the bidirectional rule.
pub proof fn law_mixed_direction_fails_bidi(s: Seq<char>, i: int, j: int)
    requires
        0 <= i < s.len(),
        0 <= j < s.len(),
        ({
            let cp = s[i] as u32;
            ||| 0x05D0 <= cp <= 0x05EA
            ||| 0x0621 <= cp <= 0x063A
            ||| 0x0641 <= cp <= 0x064A
        }),
        ('a' <= s[j] <= 'z' || 'A' <= s[j] <= 'Z'),
    ensures
        !bidi_ok(s),
{
    assert(spec_is_ral(s[i] as u32));
    assert(spec_is_l(s[j] as u32));
}

/// Among ASCII characters, exactly the letters are LCat, and none is
/// RandALCat.
pub proof fn law_ascii_classes(c: char)
    requires
        (c as u32) < 0x80,
    ensures
        spec_is_l(c as u32) <==> ('a' <= c <= 'z' || 'A' <= c <= 'Z'),
        !spec_is_ral(c as u32),
{
}

} // verus!
