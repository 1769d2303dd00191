use vstd::prelude::*;

use vstd::slice::slice_to_vec;
use vstd::utf8::{decode_utf8, encode_utf8, valid_utf8};
use unicode_normalization::UnicodeNormalization;

use crate::bidi::{bidi_ok, check_bidi};
use crate::lru_cache::bytes_opt;
use crate::tables::{is_b1_char, spec_is_b1};

verus! {

/// The preparation profiles, each with a result cache of its own.
#[derive(Clone, Copy, Debug, PartialEq, Eq)]
pub enum Profile {
    /// The Nodeprep profile (RFC 3920, Appendix A).
    Nodeprep,
    /// The Nameprep profile (RFC 3491).
    Nameprep,
    /// The Resourceprep profile (RFC 3920, Appendix B).
    Resourceprep,
    /// Case folding and NFC normalization with Table B.1 removal and the
    /// bidirectional check, but no prohibited characters.
    TolowerNofilter,
}

/// What `stringprep::nodeprep` gives for `input`: the prepared string, or
/// `None` where it reports an error.
pub uninterp spec fn stringprep_nodeprep(input: Seq<char>) -> Option<Seq<char>>;

/// What `stringprep::nameprep` gives for `input`.
pub uninterp spec fn stringprep_nameprep(input: Seq<char>) -> Option<Seq<char>>;

/// What `stringprep::resourceprep` gives for `input`.
pub uninterp spec fn stringprep_resourceprep(input: Seq<char>) -> Option<Seq<char>>;

/// What `str::to_lowercase` gives for `input`.
pub uninterp spec fn std_to_lowercase(input: Seq<char>) -> Seq<char>;

/// What Unicode NFC normalization (`unicode_normalization`'s `nfc`) gives
/// for `input`.
pub uninterp spec fn nfc_normalize(input: Seq<char>) -> Seq<char>;

pub open spec fn opt_chars(r: Option<String>) -> Option<Seq<char>> {
    match r {
        Some(s) => Some(s@),
        None => None,
    }
}

/// The UTF-8 encoding of a prepared string, or `None` for an error.
pub open spec fn encode_result(r: Option<Seq<char>>) -> Option<Seq<u8>> {
    match r {
        Some(cs) => Some(encode_utf8(cs)),
        None => None,
    }
}

/// `s` with the characters of Table B.1 removed.
pub open spec fn without_b1(s: Seq<char>) -> Seq<char> {
    s.filter(|c: char| !spec_is_b1(c))
}

/// The bytes that the no-filter lowercasing gives for a string once it is
/// lowercased and normalized: its UTF-8 encoding where it passes the
/// bidirectional check, else `None`.
pub open spec fn nofilter_finish(normalized: Seq<char>) -> Option<Seq<u8>> {
    if bidi_ok(normalized) {
        Some(encode_utf8(normalized))
    } else {
        None
    }
}

/// The no-filter lowercasing of `s`: Table B.1 removal, lowercasing, NFC
/// normalization, then the bidirectional check.
pub open spec fn spec_tolower_nofilter(s: Seq<char>) -> Option<Seq<u8>> {
    nofilter_finish(nfc_normalize(std_to_lowercase(without_b1(s))))
}

/// What `profile` gives for the string `s`, as UTF-8 bytes.
pub open spec fn profile_result(profile: Profile, s: Seq<char>) -> Option<Seq<u8>> {
    match profile {
        Profile::Nodeprep => encode_result(stringprep_nodeprep(s)),
        Profile::Nameprep => encode_result(stringprep_nameprep(s)),
        Profile::Resourceprep => encode_result(stringprep_resourceprep(s)),
        Profile::TolowerNofilter => spec_tolower_nofilter(s),
    }
}

/// What preparing the raw bytes `input` with `profile` gives: the empty
/// input prepares to itself, bytes that are not UTF-8 are an error, and
/// any other input is prepared as the string it encodes.
pub open spec fn prep_result(profile: Profile, input: Seq<u8>) -> Option<Seq<u8>> {
    if input.len() == 0 {
        Some(Seq::<u8>::empty())
    } else if !valid_utf8(input) {
        None
    } else {
        profile_result(profile, decode_utf8(input))
    }
}

/// The characters that a Nodeprep answer never holds: the ASCII space and
/// the characters RFC 3920 prohibits in node identifiers.
pub open spec fn node_prohibited(c: char) -> bool {
    ||| c == ' '
    ||| c == '"'
    ||| c == '&'
    ||| c == '\''
    ||| c == '/'
    ||| c == ':'
    ||| c == '<'
    ||| c == '>'
    ||| c == '@'
}

/// No character of `s` is prohibited in a node identifier.
pub open spec fn node_clean(s: Seq<char>) -> bool {
    forall|i: int| 0 <= i < s.len() ==> !node_prohibited(#[trigger] s[i])
}

/// Preparing the non-empty UTF-8 bytes `input` with Nodeprep never
/// succeeds with a prohibited character.
pub open spec fn nodeprep_answer_clean(input: Seq<u8>) -> bool {
    input.len() > 0 && valid_utf8(input) ==> (stringprep_nodeprep(decode_utf8(input)) matches Some(
        n,
    ) ==> node_clean(n))
}

/// `stringprep::nodeprep`, with its error mapped to `None`.
/// Claimed: the result is the named one, and a successful result holds no
/// ASCII space and none of `" & ' / : < > @`: its ASCII fast path returns
/// only strings without them, and otherwise the crate rejects them in the
/// string it returns (`ascii_space_character`, `prohibited_node_character`).
#[verifier::external_body]
fn call_nodeprep(s: &str) -> (r: Option<String>)
    ensures
        opt_chars(r) == stringprep_nodeprep(s@),
        r matches Some(o) ==> node_clean(o@),
{
    match stringprep::nodeprep(s) {
        Ok(prepared) => Some(prepared.into_owned()),
        Err(_) => None,
    }
}

/// `stringprep::nameprep`, with its error mapped to `None`.
/// Claimed: the result is the named one.
#[verifier::external_body]
fn call_nameprep(s: &str) -> (r: Option<String>)
    ensures
        opt_chars(r) == stringprep_nameprep(s@),
{
    match stringprep::nameprep(s) {
        Ok(prepared) => Some(prepared.into_owned()),
        Err(_) => None,
    }
}

/// `stringprep::resourceprep`, with its error mapped to `None`.
/// Claimed: the result is the named one.
#[verifier::external_body]
fn call_resourceprep(s: &str) -> (r: Option<String>)
    ensures
        opt_chars(r) == stringprep_resourceprep(s@),
{
    match stringprep::resourceprep(s) {
        Ok(prepared) => Some(prepared.into_owned()),
        Err(_) => None,
    }
}

/// `str::to_lowercase`. Claimed: the result is the named one.
#[verifier::external_body]
fn lowercase(s: &str) -> (r: String)
    ensures
        r@ == std_to_lowercase(s@),
{
    s.to_lowercase()
}

/// `UnicodeNormalization::nfc`, collected into a string.
/// Claimed: the result is the named one.
#[verifier::external_body]
fn nfc(s: &str) -> (r: String)
    ensures
        r@ == nfc_normalize(s@),
{
    s.nfc().collect()
}

/// `String::push`. Claimed: `c` is appended.
#[verifier::external_body]
fn push_char(s: &mut String, c: char)
    ensures
        final(s)@ == old(s)@.push(c),
{
    s.push(c)
}

/// `std::str::from_utf8`, with its error mapped to `None`.
/// Claimed: it succeeds exactly on valid UTF-8, and then gives the
/// characters that the bytes encode.
#[verifier::external_body]
pub(crate) fn str_from_utf8(bytes: &[u8]) -> (r: Option<&str>)
    ensures
        r is Some <==> valid_utf8(bytes@),
        r matches Some(s) ==> s@ == decode_utf8(bytes@),
{
    match std::str::from_utf8(bytes) {
        Ok(s) => Some(s),
        Err(_) => None,
    }
}

/// The UTF-8 bytes of `s`.
pub fn utf8_bytes(s: &str) -> (r: Vec<u8>)
    ensures
        r@ == encode_utf8(s@),
{
    slice_to_vec(s.as_bytes())
}

/// The UTF-8 bytes of a prepared string, or `None` for an error.
pub fn encode_prepared(prepared: Option<String>) -> (r: Option<Vec<u8>>)
    ensures
        bytes_opt(r) == encode_result(opt_chars(prepared)),
{
    match prepared {
        Some(s) => Some(utf8_bytes(s.as_str())),
        None => None,
    }
}

/// Removes the characters of Table B.1 from `s`.
pub fn remove_b1(s: &str) -> (r: String)
    ensures
        r@ == without_b1(s@),
{
    broadcast use vstd::string::group_string_axioms;

    let mut out = String::new();
    let ghost chars = s@;
    for c in it: s.chars()
        invariant
            chars == s@,
            it.seq() == chars,
            out@ == without_b1(chars.take(it.index() as int)),
    {
        let ghost i = it.index();
        proof {
            assert(chars.take(i + 1).drop_last() =~= chars.take(i));
            reveal_with_fuel(Seq::filter, 1);
        }
        if !is_b1_char(c) {
            push_char(&mut out, c);
        }
    }
    proof {
        assert(chars.take(chars.len() as int) =~= chars);
    }
    out
}

/// The last step of the no-filter lowercasing: the UTF-8 bytes of the
/// normalized string where it passes the bidirectional check, else `None`.
pub fn finish_nofilter(normalized: &str) -> (r: Option<Vec<u8>>)
    ensures
        bytes_opt(r) == nofilter_finish(normalized@),
{
    if !check_bidi(normalized) {
        return None;
    }
    Some(utf8_bytes(normalized))
}

/// Case folding and NFC normalization with Table B.1 removal and the
/// bidirectional check, without character prohibition.
pub fn tolower_nofilter_str(s: &str) -> (r: Option<Vec<u8>>)
    ensures
        bytes_opt(r) == spec_tolower_nofilter(s@),
{
    let filtered = remove_b1(s);
    let lowered = lowercase(filtered.as_str());
    let normalized = nfc(lowered.as_str());
    finish_nofilter(normalized.as_str())
}

/// Prepares the string `s` with `profile`, as UTF-8 bytes; `None` where
/// the profile rejects it.
pub fn prepare_str(profile: Profile, s: &str) -> (r: Option<Vec<u8>>)
    ensures
        bytes_opt(r) == profile_result(profile, s@),
        profile == Profile::Nodeprep ==> (stringprep_nodeprep(s@) matches Some(n) ==> node_clean(n)),
{
    match profile {
        Profile::Nodeprep => encode_prepared(call_nodeprep(s)),
        Profile::Nameprep => encode_prepared(call_nameprep(s)),
        Profile::Resourceprep => encode_prepared(call_resourceprep(s)),
        Profile::TolowerNofilter => tolower_nofilter_str(s),
    }
}

/// Prepares the raw bytes `input` with `profile`, with no cache: the empty
/// input prepares to itself, bytes that are not UTF-8 are an error, and any
/// other input is prepared as the string it encodes.
pub fn prep_bytes(profile: Profile, input: &[u8]) -> (r: Option<Vec<u8>>)
    ensures
        bytes_opt(r) == prep_result(profile, input@),
        profile == Profile::Nodeprep ==> nodeprep_answer_clean(input@),
{
    if input.len() == 0 {
        return Some(Vec::new());
    }
    match str_from_utf8(input) {
        None => None,
        Some(s) => prepare_str(profile, s),
    }
}

} // verus!
