//! Behaviour of the fuzzy matcher and the candidate filter.

use biblion::fuzzy::{contains_seq, filter_suggestions, fuzzy_match, seq_eq, simplify};

fn chars(s: &str) -> Vec<char> {
    s.chars().collect()
}

fn strings(v: &[&str]) -> Vec<Vec<char>> {
    v.iter().map(|s| chars(s)).collect()
}

#[test]
fn match_is_accent_insensitive() {
    assert!(fuzzy_match(&chars("México"), &chars("mexico")));
    assert!(fuzzy_match(&chars("mexico"), &chars("MÉXICO")));
    assert!(fuzzy_match(&chars("Ñandú"), &chars("nandu")));
}

#[test]
fn match_is_case_insensitive() {
    assert!(fuzzy_match(&chars("Genesis"), &chars("genesis")));
    assert!(fuzzy_match(&chars("Juan"), &chars("JUAN")));
}

#[test]
fn match_suppresses_equal_raw_strings_only() {
    assert!(!fuzzy_match(&chars("Juan"), &chars("Juan")));
    assert!(fuzzy_match(&chars("Juan"), &chars("JUAN")));
    assert!(!fuzzy_match(&chars("Genesis"), &chars("Genesis")));
}

#[test]
fn match_requires_substring_containment() {
    assert!(fuzzy_match(&chars("Genesis"), &chars("nes")));
    assert!(fuzzy_match(&chars("Genesis"), &chars("Gen")));
    assert!(!fuzzy_match(&chars("Genesis"), &chars("xyz")));
    assert!(!fuzzy_match(&chars("Gen"), &chars("Genesis")));
}

#[test]
fn simplify_lowercases_and_folds_accents() {
    assert_eq!(simplify(&chars("ÁÉÍÓÚ")), chars("aeiou"));
    assert_eq!(simplify(&chars("àèìòù")), chars("aeiou"));
    assert_eq!(simplify(&chars("äëïöü")), chars("aeiou"));
    assert_eq!(simplify(&chars("âêîôû")), chars("aeiou"));
    assert_eq!(simplify(&chars("Ñ ñ")), chars("n n"));
    assert_eq!(simplify(&chars("Hello, World!")), chars("hello, world!"));
}

#[test]
fn simplify_latin1_boundaries() {
    assert_eq!(simplify(&chars("Ç")), chars("ç"));
    assert_eq!(simplify(&chars("×")), chars("×"));
    assert_eq!(simplify(&chars("Þ")), chars("þ"));
    assert_eq!(simplify(&chars("ß")), chars("ß"));
    assert_eq!(simplify(&chars("你好")), chars("你好"));
}

#[test]
fn contains_seq_handles_edges() {
    assert!(contains_seq(&chars("abc"), &chars("")));
    assert!(contains_seq(&chars(""), &chars("")));
    assert!(!contains_seq(&chars(""), &chars("a")));
    assert!(contains_seq(&chars("abc"), &chars("abc")));
    assert!(contains_seq(&chars("abcabd"), &chars("abd")));
    assert!(!contains_seq(&chars("abcabd"), &chars("abe")));
}

#[test]
fn seq_eq_compares_exactly() {
    assert!(seq_eq(&chars("abc"), &chars("abc")));
    assert!(!seq_eq(&chars("abc"), &chars("abd")));
    assert!(!seq_eq(&chars("abc"), &chars("ab")));
    assert!(seq_eq(&chars(""), &chars("")));
}

#[test]
fn filter_excludes_empty_query() {
    let list = strings(&["Genesis", "Exodus", "Numbers"]);
    let filtered = filter_suggestions(&list, &chars(""));
    assert!(filtered.is_empty());
}

#[test]
fn filter_empty_candidate_list() {
    let list: Vec<Vec<char>> = Vec::new();
    assert!(filter_suggestions(&list, &chars("gen")).is_empty());
}

#[test]
fn filter_preserves_candidate_order() {
    let list = strings(&["Numbers", "Genesis", "Deuteronomy"]);
    let filtered = filter_suggestions(&list, &chars("e"));
    assert_eq!(filtered, strings(&["Numbers", "Genesis", "Deuteronomy"]));
    let filtered = filter_suggestions(&list, &chars("nes"));
    assert_eq!(filtered, strings(&["Genesis"]));
}

#[test]
fn filter_drops_exact_match_keeps_others() {
    let list = strings(&["Gen", "Genesis", "General"]);
    let filtered = filter_suggestions(&list, &chars("Gen"));
    assert_eq!(filtered, strings(&["Genesis", "General"]));
}
