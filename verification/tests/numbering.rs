use figure_numbering::numbering::{InvalidNumberingPattern, Numbering, NumberingPattern};

fn pattern(text: &str) -> NumberingPattern {
    match NumberingPattern::from_str(text) {
        Ok(p) => p,
        Err(_) => panic!("pattern text should parse"),
    }
}

fn applied(text: &str, values: &[u64]) -> String {
    pattern(text).apply(&values.to_vec())
}

#[test]
fn arabic_pattern_single_level() {
    assert_eq!(applied("1", &[3]), "3");
}

#[test]
fn arabic_pattern_two_levels() {
    assert_eq!(applied("1.1", &[2, 5]), "2.5");
}

#[test]
fn empty_pattern_fails_construction() {
    assert!(matches!(
        NumberingPattern::from_str(""),
        Err(InvalidNumberingPattern)
    ));
}

#[test]
fn pattern_without_counting_symbol_fails_construction() {
    assert!(matches!(
        NumberingPattern::from_str(".-:"),
        Err(InvalidNumberingPattern)
    ));
}

#[test]
fn pattern_affixes_surround_the_number() {
    assert_eq!(applied("(a)", &[2]), "(b)");
}

#[test]
fn longer_vector_reuses_last_piece() {
    assert_eq!(applied("1.1", &[1, 2, 3]), "1.2.3");
}

#[test]
fn shorter_vector_leaves_later_pieces_unused() {
    assert_eq!(applied("1.1", &[7]), "7");
}

#[test]
fn alphabetic_counting_is_bijective() {
    assert_eq!(applied("a", &[1]), "a");
    assert_eq!(applied("a", &[26]), "z");
    assert_eq!(applied("a", &[27]), "aa");
    assert_eq!(applied("A", &[28]), "AB");
}

#[test]
fn roman_counting_is_greedy() {
    assert_eq!(applied("i", &[4]), "iv");
    assert_eq!(applied("i", &[2024]), "mmxxiv");
    assert_eq!(applied("I", &[1999]), "MCMXCIX");
}

#[test]
fn roman_zero_renders_as_nulla() {
    assert_eq!(applied("i", &[0]), "n");
    assert_eq!(applied("I", &[0]), "N");
}

#[test]
fn arabic_zero_renders_as_digit_zero() {
    assert_eq!(applied("1", &[0]), "0");
}

#[test]
fn alphabetic_zero_renders_as_empty() {
    assert_eq!(applied("a", &[0]), "");
}

#[test]
fn numbering_applies_its_pattern() {
    let numbering = Numbering::Pattern(pattern("A."));
    assert_eq!(numbering.apply(&vec![3]), "C.");
}

#[test]
fn mixed_pattern_schemes() {
    assert_eq!(applied("1.a.i", &[2, 3, 4]), "2.c.iv");
}
