use stringprep_rust::{check_bidi, is_b1_char, is_l_char, is_ral_char};

#[test]
fn b1_characters() {
    assert!(is_b1_char('\u{00AD}'));
    assert!(is_b1_char('\u{034F}'));
    assert!(is_b1_char('\u{1806}'));
    assert!(is_b1_char('\u{180B}'));
    assert!(is_b1_char('\u{180D}'));
    assert!(is_b1_char('\u{200B}'));
    assert!(is_b1_char('\u{200D}'));
    assert!(is_b1_char('\u{2060}'));
    assert!(is_b1_char('\u{FE00}'));
    assert!(is_b1_char('\u{FE0F}'));
    assert!(is_b1_char('\u{FEFF}'));
}

#[test]
fn non_b1_characters() {
    assert!(!is_b1_char('a'));
    assert!(!is_b1_char(' '));
    assert!(!is_b1_char('\u{180E}'));
    assert!(!is_b1_char('\u{200E}'));
    assert!(!is_b1_char('\u{FE10}'));
    assert!(!is_b1_char('\u{FEFE}'));
}

#[test]
fn ral_characters() {
    assert!(is_ral_char('\u{05BE}'));
    assert!(is_ral_char('\u{05D0}'));
    assert!(is_ral_char('\u{05EA}'));
    assert!(is_ral_char('\u{0627}'));
    assert!(is_ral_char('\u{FEFC}'));
    assert!(is_ral_char('\u{200F}'));
    assert!(!is_ral_char('\u{200E}'));
    assert!(!is_ral_char('\u{05EB}'));
    assert!(!is_ral_char('\u{FEFD}'));
    assert!(!is_ral_char('a'));
    assert!(!is_ral_char('1'));
}

#[test]
fn l_characters() {
    assert!(is_l_char('A'));
    assert!(is_l_char('z'));
    assert!(is_l_char('\u{00E9}'));
    assert!(is_l_char('\u{4E00}'));
    assert!(is_l_char('\u{10FFFD}'));
    assert!(!is_l_char('1'));
    assert!(!is_l_char(' '));
    assert!(!is_l_char('\u{0221}'));
    assert!(!is_l_char('\u{05D0}'));
    assert!(!is_l_char('\u{10FFFE}'));
}

#[test]
fn bidi_without_ral_passes() {
    assert!(check_bidi(""));
    assert!(check_bidi("abc"));
    assert!(check_bidi("123"));
}

#[test]
fn bidi_ral_only_passes() {
    assert!(check_bidi("\u{05D0}\u{05D1}"));
    assert!(check_bidi("\u{05D0}1\u{05D1}"));
    assert!(check_bidi("\u{0627}"));
    assert!(check_bidi("\u{200F}\u{05D0}\u{200F}"));
}

#[test]
fn bidi_mixed_fails() {
    assert!(!check_bidi("\u{05D0}a\u{05D1}"));
    assert!(!check_bidi("a\u{05D0}"));
    assert!(!check_bidi("\u{05D0}1"));
    assert!(!check_bidi("1\u{05D0}"));
    assert!(!check_bidi("\u{200F}a"));
}
