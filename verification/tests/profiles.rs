use stringprep_rust::{
    encode_prepared, finish_nofilter, prep_bytes, prepare_str, remove_b1, tolower_nofilter_str, utf8_bytes,
    Profile,
};

#[test]
fn b1_removal() {
    assert_eq!(remove_b1("a\u{00AD}b\u{200B}c\u{FE0F}"), "abc");
    assert_eq!(remove_b1("plain"), "plain");
    assert_eq!(remove_b1("\u{FEFF}"), "");
}

#[test]
fn b1_removal_is_idempotent() {
    let once = remove_b1("x\u{2060}y\u{034F}");
    assert_eq!(remove_b1(&once), once);
}

#[test]
fn utf8_encoding() {
    assert_eq!(utf8_bytes("a\u{00E9}"), vec![0x61, 0xC3, 0xA9]);
    assert_eq!(encode_prepared(Some("ok".to_string())), Some(b"ok".to_vec()));
    assert_eq!(encode_prepared(None), None);
}

#[test]
fn nofilter_finish() {
    assert_eq!(finish_nofilter("abc"), Some(b"abc".to_vec()));
    assert_eq!(finish_nofilter("\u{05D0}a"), None);
}

#[test]
fn nofilter_lowercases_and_removes_b1() {
    assert_eq!(tolower_nofilter_str("AB\u{00AD}C"), Some(b"abc".to_vec()));
    assert_eq!(
        tolower_nofilter_str("\u{00C4}x"),
        Some("\u{00E4}x".as_bytes().to_vec())
    );
}

#[test]
fn nofilter_composes() {
    // "A" followed by a combining diaeresis composes to a single character.
    assert_eq!(
        tolower_nofilter_str("A\u{0308}"),
        Some("\u{00E4}".as_bytes().to_vec())
    );
}

#[test]
fn nofilter_keeps_prohibited_characters() {
    assert_eq!(tolower_nofilter_str("a@b c"), Some(b"a@b c".to_vec()));
}

#[test]
fn nofilter_rejects_mixed_direction() {
    assert_eq!(tolower_nofilter_str("\u{05D0}A\u{05D1}"), None);
}

#[test]
fn nodeprep_folds_case() {
    assert_eq!(prepare_str(Profile::Nodeprep, "User"), Some(b"user".to_vec()));
    assert_eq!(prepare_str(Profile::Nodeprep, "plain"), Some(b"plain".to_vec()));
}

#[test]
fn nodeprep_rejects_prohibited() {
    assert_eq!(prepare_str(Profile::Nodeprep, "a@b"), None);
    assert_eq!(prepare_str(Profile::Nodeprep, "a b"), None);
    assert_eq!(prepare_str(Profile::Nodeprep, "a/b"), None);
}

#[test]
fn nameprep_folds_case() {
    assert_eq!(
        prepare_str(Profile::Nameprep, "Example.COM"),
        Some(b"example.com".to_vec())
    );
}

#[test]
fn nameprep_rejects_mixed_direction() {
    assert_eq!(prepare_str(Profile::Nameprep, "\u{05D0}a\u{05D1}"), None);
}

#[test]
fn resourceprep_keeps_case_and_spaces() {
    assert_eq!(
        prepare_str(Profile::Resourceprep, "My Resource"),
        Some(b"My Resource".to_vec())
    );
}

#[test]
fn resourceprep_removes_b1() {
    assert_eq!(
        prepare_str(Profile::Resourceprep, "R\u{00E9}s\u{00AD}"),
        Some("R\u{00E9}s".as_bytes().to_vec())
    );
}

#[test]
fn tolower_nofilter_profile() {
    assert_eq!(
        prepare_str(Profile::TolowerNofilter, "HeLLo"),
        Some(b"hello".to_vec())
    );
}

#[test]
fn uncached_preparation_of_bytes() {
    assert_eq!(prep_bytes(Profile::Nodeprep, b""), Some(Vec::new()));
    assert_eq!(prep_bytes(Profile::Nodeprep, &[0xc0, 0x80]), None);
    assert_eq!(prep_bytes(Profile::Nodeprep, b"User"), Some(b"user".to_vec()));
    assert_eq!(prep_bytes(Profile::Resourceprep, b"User"), Some(b"User".to_vec()));
}

#[test]
fn nofilter_rejects_rtl_mark_before_latin() {
    assert_eq!(tolower_nofilter_str("\u{200F}a"), None);
}
