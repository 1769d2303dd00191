use vstd::prelude::*;

use crate::tables::{is_l_char, is_ral_char, spec_is_l, spec_is_ral};

verus! {

/// `s` holds a RandALCat character.
pub open spec fn has_ral(s: Seq<char>) -> bool {
    exists|i: int| 0 <= i < s.len() && spec_is_ral(#[trigger] s[i] as u32)
}

/// `s` holds an LCat character.
pub open spec fn has_l(s: Seq<char>) -> bool {
    exists|i: int| 0 <= i < s.len() && spec_is_l(#[trigger] s[i] as u32)
}

/// The bidirectional rule of RFC 3454 Section 6: a string that holds a
/// RandALCat character starts and ends with one and holds no LCat
/// character.
pub open spec fn bidi_ok(s: Seq<char>) -> bool {
    has_ral(s) ==> {
        &&& spec_is_ral(s[0] as u32)
        &&& spec_is_ral(s.last() as u32)
        &&& !has_l(s)
    }
}

proof fn lemma_classes_push(s: Seq<char>, c: char)
    ensures
        has_ral(s.push(c)) == (has_ral(s) || spec_is_ral(c as u32)),
        has_l(s.push(c)) == (has_l(s) || spec_is_l(c as u32)),
{
    let t = s.push(c);
    assert(t[s.len() as int] == c);
    if has_ral(s) {
        let i = choose|i: int| 0 <= i < s.len() && spec_is_ral(#[trigger] s[i] as u32);
        assert(t[i] == s[i]);
    }
    if has_ral(t) {
        let i = choose|i: int| 0 <= i < t.len() && spec_is_ral(#[trigger] t[i] as u32);
        if i < s.len() {
            assert(t[i] == s[i]);
        }
    }
    if has_l(s) {
        let i = choose|i: int| 0 <= i < s.len() && spec_is_l(#[trigger] s[i] as u32);
        assert(t[i] == s[i]);
    }
    if has_l(t) {
        let i = choose|i: int| 0 <= i < t.len() && spec_is_l(#[trigger] t[i] as u32);
        if i < s.len() {
            assert(t[i] == s[i]);
        }
    }
}

/// Checks the bidirectional rule of RFC 3454 Section 6 on `s`.
pub fn check_bidi(s: &str) -> (r: bool)
    ensures
        r == bidi_ok(s@),
{
    broadcast use vstd::string::group_string_axioms;

    let mut has_ral_seen = false;
    let mut has_l_seen = false;
    let mut first_ral: Option<bool> = None;
    let mut last_ral = false;
    let ghost chars = s@;

    for c in it: s.chars()
        invariant
            chars == s@,
            it.seq() == chars,
            has_ral_seen == has_ral(chars.take(it.index() as int)),
            has_l_seen == has_l(chars.take(it.index() as int)),
            it.index() == 0 ==> first_ral is None,
            it.index() > 0 ==> first_ral == Some(spec_is_ral(chars[0] as u32)),
            it.index() > 0 ==> last_ral == spec_is_ral(chars[it.index() - 1] as u32),
    {
        let ghost i = it.index();
        proof {
            assert(chars.take(i + 1) =~= chars.take(i).push(c));
            lemma_classes_push(chars.take(i), c);
        }
        let is_ral = is_ral_char(c);
        let is_l = is_l_char(c);
        if first_ral.is_none() {
            first_ral = Some(is_ral);
        }
        last_ral = is_ral;
        has_ral_seen = has_ral_seen || is_ral;
        has_l_seen = has_l_seen || is_l;
    }
    proof {
        assert(chars.take(chars.len() as int) =~= chars);
    }
    if has_ral_seen {
        let first = match first_ral {
            Some(b) => b,
            None => false,
        };
        first && last_ral && !has_l_seen
    } else {
        true
    }
}

} // verus!
