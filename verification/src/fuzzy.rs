//! Fuzzy matching of suggestion candidates against the typed query.
//!
//! A candidate matches when its normalized form contains the normalized
//! query as a contiguous substring, except that a candidate equal to the
//! raw query is suppressed (it adds nothing once typed in full).
//! Normalization works character by character: letters are lowercased and
//! accented Latin vowels and enye fold to their unaccented base letter.
//! Filtering a candidate list keeps the original order among the matches
//! and an empty query always yields an empty list.

use vstd::prelude::*;

verus! {

/// Lowercases a single character: ASCII letters and the Latin-1
/// uppercase letters (which sit 32 below their lowercase forms).
pub open spec fn lower_char(c: char) -> char {
    if 'A' <= c && c <= 'Z' {
        ((c as u32) + 32) as char
    } else if '\u{c0}' <= c && c <= '\u{de}' && c != '\u{d7}' {
        ((c as u32) + 32) as char
    } else {
        c
    }
}

/// Folds a lowercase accented Latin vowel or enye to its base letter;
/// every other character is left alone.
pub open spec fn fold_accent(c: char) -> char {
    if c == '\u{e1}' || c == '\u{e0}' || c == '\u{e4}' || c == '\u{e2}' {
        'a'
    } else if c == '\u{e9}' || c == '\u{e8}' || c == '\u{eb}' || c == '\u{ea}' {
        'e'
    } else if c == '\u{ed}' || c == '\u{ec}' || c == '\u{ef}' || c == '\u{ee}' {
        'i'
    } else if c == '\u{f3}' || c == '\u{f2}' || c == '\u{f6}' || c == '\u{f4}' {
        'o'
    } else if c == '\u{fa}' || c == '\u{f9}' || c == '\u{fc}' || c == '\u{fb}' {
        'u'
    } else if c == '\u{f1}' {
        'n'
    } else {
        c
    }
}

/// Full per-character normalization: lowercase, then fold accents.
pub open spec fn normal_char(c: char) -> char {
    fold_accent(lower_char(c))
}

/// Per-character lowercasing of a whole string.
pub open spec fn lower_seq(s: Seq<char>) -> Seq<char> {
    s.map_values(|c: char| lower_char(c))
}

/// Normalized form of a whole string: each character lowercased and
/// accent-folded.
pub open spec fn normalize(s: Seq<char>) -> Seq<char> {
    s.map_values(|c: char| normal_char(c))
}

/// Executable per-character lowercasing.
pub fn lower_char_exec(c: char) -> (r: char)
    ensures
        r == lower_char(c),
{
    if ('A' <= c && c <= 'Z') || ('\u{c0}' <= c && c <= '\u{de}' && c != '\u{d7}') {
        let code: u32 = (c as u32) + 32;
        (code as u8) as char
    } else {
        c
    }
}

/// Executable per-character normalization.
pub fn normal_char_exec(c: char) -> (r: char)
    ensures
        r == normal_char(c),
{
    let low = lower_char_exec(c);
    match low {
        '\u{e1}' | '\u{e0}' | '\u{e4}' | '\u{e2}' => 'a',
        '\u{e9}' | '\u{e8}' | '\u{eb}' | '\u{ea}' => 'e',
        '\u{ed}' | '\u{ec}' | '\u{ef}' | '\u{ee}' => 'i',
        '\u{f3}' | '\u{f2}' | '\u{f6}' | '\u{f4}' => 'o',
        '\u{fa}' | '\u{f9}' | '\u{fc}' | '\u{fb}' => 'u',
        '\u{f1}' => 'n',
        _ => low,
    }
}

/// Normalizes a whole string, character by character.
pub fn simplify(input: &Vec<char>) -> (r: Vec<char>)
    ensures
        r@ == normalize(input@),
{
    let mut r: Vec<char> = Vec::new();
    let mut i: usize = 0;
    while i < input.len()
        invariant
            i <= input@.len(),
            r@ == normalize(input@.subrange(0, i as int)),
        decreases input@.len() - i,
    {
        let c = normal_char_exec(input[i]);
        r.push(c);
        i = i + 1;
        proof {
            assert(r@ =~= normalize(input@.subrange(0, i as int)));
        }
    }
    proof {
        assert(input@.subrange(0, input@.len() as int) =~= input@);
    }
    r
}

/// True when `pat` occurs in `text` as a contiguous substring.
/// The empty string occurs in every string.
pub open spec fn is_substring(text: Seq<char>, pat: Seq<char>) -> bool {
    exists|i: int|
        0 <= i && i + pat.len() <= text.len() && #[trigger] text.subrange(i, i + pat.len()) == pat
}

/// Executable substring search (naive scan over all start positions).
pub fn contains_seq(text: &Vec<char>, pat: &Vec<char>) -> (r: bool)
    ensures
        r == is_substring(text@, pat@),
{
    let n = text.len();
    let m = pat.len();
    if m > n {
        return false;
    }
    if m == 0 {
        proof {
            assert(text@.subrange(0, 0 + pat@.len() as int) =~= pat@);
        }
        return true;
    }
    let mut i: usize = 0;
    while i <= n - m
        invariant
            0 < m <= n,
            n == text@.len(),
            m == pat@.len(),
            i <= n - m + 1,
            forall|k: int|
                0 <= k < i ==> #[trigger] text@.subrange(k, k + pat@.len()) != pat@,
        decreases n - m + 1 - i,
    {
        let mut j: usize = 0;
        let mut mismatch: bool = false;
        while j < m
            invariant
                m <= n,
                n == text@.len(),
                m == pat@.len(),
                i + m <= n,
                j <= m,
                !mismatch ==> forall|l: int| 0 <= l < j ==> #[trigger] text@[i + l] == pat@[l],
                mismatch ==> text@.subrange(i as int, i + pat@.len()) != pat@,
            decreases m - j,
        {
            if text[i + j] != pat[j] {
                proof {
                    assert(text@.subrange(i as int, i + pat@.len())[j as int] != pat@[j as int]);
                }
                mismatch = true;
                j = m;
            } else {
                j = j + 1;
            }
        }
        if !mismatch {
            proof {
                assert forall|l: int| 0 <= l < pat@.len() implies text@.subrange(
                    i as int,
                    i + pat@.len(),
                )[l] == pat@[l] by {
                    assert(text@[i + l] == pat@[l]);
                }
                assert(text@.subrange(i as int, i + pat@.len()) =~= pat@);
            }
            return true;
        }
        i = i + 1;
    }
    proof {
        assert forall|k: int| 0 <= k && k + pat@.len() <= text@.len() implies #[trigger] text@
            .subrange(k, k + pat@.len()) != pat@ by {
            assert(k < i);
        }
    }
    false
}

/// Exact equality of two strings, character by character.
pub fn seq_eq(a: &Vec<char>, b: &Vec<char>) -> (r: bool)
    ensures
        r == (a@ == b@),
{
    if a.len() != b.len() {
        return false;
    }
    let mut i: usize = 0;
    while i < a.len()
        invariant
            a@.len() == b@.len(),
            i <= a@.len(),
            forall|k: int| 0 <= k < i ==> a@[k] == b@[k],
        decreases a@.len() - i,
    {
        if a[i] != b[i] {
            return false;
        }
        i = i + 1;
    }
    proof {
        assert(a@ =~= b@);
    }
    true
}

/// A candidate matches a query when the normalized candidate contains the
/// normalized query as a substring and the raw strings are not equal.
pub open spec fn spec_fuzzy_match(candidate: Seq<char>, query: Seq<char>) -> bool {
    is_substring(normalize(candidate), normalize(query)) && candidate != query
}

/// Fuzzy match test: accent- and case-insensitive containment, with an
/// exact raw-string match suppressed.
pub fn fuzzy_match(candidate: &Vec<char>, query: &Vec<char>) -> (r: bool)
    ensures
        r == spec_fuzzy_match(candidate@, query@),
{
    let clean_candidate = simplify(candidate);
    let clean_query = simplify(query);
    let contained = contains_seq(&clean_candidate, &clean_query);
    let equal = seq_eq(candidate, query);
    contained && !equal
}

/// The string views of a list of character vectors.
pub open spec fn string_views(l: Seq<Vec<char>>) -> Seq<Seq<char>> {
    l.map_values(|v: Vec<char>| v@)
}

/// The filtered suggestion list: empty for an empty query, otherwise the
/// matching candidates in their original order.
pub open spec fn spec_filter_suggestions(candidates: Seq<Seq<char>>, query: Seq<char>) -> Seq<
    Seq<char>,
> {
    if query.len() == 0 {
        Seq::empty()
    } else {
        candidates.filter(|c: Seq<char>| spec_fuzzy_match(c, query))
    }
}

/// Filters the candidate list against the query. The result keeps the
/// matching candidates in their original order, never grows past the
/// input, and is empty whenever the query is empty.
pub fn filter_suggestions(candidates: &Vec<Vec<char>>, query: &Vec<char>) -> (r: Vec<Vec<char>>)
    ensures
        string_views(r@) == spec_filter_suggestions(string_views(candidates@), query@),
        r@.len() <= candidates@.len(),
        query@.len() == 0 ==> r@.len() == 0,
{
    let mut r: Vec<Vec<char>> = Vec::new();
    if query.len() == 0 {
        proof {
            assert(string_views(r@) =~= Seq::<Seq<char>>::empty());
        }
        return r;
    }
    let ghost cand = string_views(candidates@);
    let ghost pred = |c: Seq<char>| spec_fuzzy_match(c, query@);
    proof {
        assert(string_views(r@) =~= cand.subrange(0, 0).filter(pred)) by {
            reveal_with_fuel(Seq::<_>::filter, 1);
            assert(cand.subrange(0, 0) =~= Seq::<Seq<char>>::empty());
        }
    }
    let mut i: usize = 0;
    while i < candidates.len()
        invariant
            i <= candidates@.len(),
            query@.len() > 0,
            cand == string_views(candidates@),
            pred == (|c: Seq<char>| spec_fuzzy_match(c, query@)),
            string_views(r@) == cand.subrange(0, i as int).filter(pred),
            r@.len() <= i,
        decreases candidates@.len() - i,
    {
        let ghost prefix = cand.subrange(0, i as int);
        let ghost one = seq![cand[i as int]];
        let ghost r_before = r@;
        if fuzzy_match(&candidates[i], query) {
            let c = candidates[i].clone();
            proof {
                assert(c@ =~= candidates@[i as int]@);
            }
            r.push(c);
        }
        proof {
            reveal_with_fuel(Seq::<_>::filter, 2);
            assert(one.drop_last() =~= Seq::<Seq<char>>::empty());
            assert(one.last() == cand[i as int]);
            if pred(cand[i as int]) {
                assert(one.filter(pred) =~= seq![cand[i as int]]);
                assert(string_views(r@) =~= string_views(r_before).push(cand[i as int]));
            } else {
                assert(one.filter(pred) =~= Seq::<Seq<char>>::empty());
                assert(string_views(r@) =~= string_views(r_before));
            }
            Seq::filter_distributes_over_add(prefix, one, pred);
            assert(prefix + one =~= cand.subrange(0, i + 1));
            assert(string_views(r@) =~= cand.subrange(0, i + 1).filter(pred));
        }
        i = i + 1;
    }
    proof {
        assert(cand.subrange(0, candidates@.len() as int) =~= cand);
    }
    r
}

/// Law: the fuzzy match is accent- and case-insensitive in the query.
/// Two queries with the same normalized form, neither equal to the raw
/// candidate, match exactly the same candidates.
pub proof fn lemma_fuzzy_match_insensitive(candidate: Seq<char>, q1: Seq<char>, q2: Seq<char>)
    requires
        normalize(q1) == normalize(q2),
        candidate != q1,
        candidate != q2,
    ensures
        spec_fuzzy_match(candidate, q1) == spec_fuzzy_match(candidate, q2),
{
}

} // verus!
