//! Pattern filtering for listed names: simple wildcard matching and a
//! case-insensitive substring fallback.
//!
//! A pattern with a single trailing `*` matches by prefix, one with a single
//! leading `*` by suffix, and `*text*` by substring. Any other pattern with
//! wildcards must match exactly; a pattern without wildcards matches any
//! value that contains it, ignoring case.

use crate::text;
use vstd::prelude::*;

verus! {

/// Number of occurrences of `c` in `s`.
pub open spec fn count_char(s: Seq<char>, c: char) -> nat
    decreases s.len(),
{
    if s.len() == 0 {
        0
    } else {
        count_char(s.drop_last(), c) + (if s.last() == c {
            1nat
        } else {
            0nat
        })
    }
}

/// A sequence holds no more occurrences of a character than it has
/// characters.
pub proof fn lemma_count_le_len(s: Seq<char>, c: char)
    ensures
        count_char(s, c) <= s.len(),
    decreases s.len(),
{
    if s.len() > 0 {
        lemma_count_le_len(s.drop_last(), c);
    }
}

/// Whether `value` matches `pattern`:
/// - a pattern with one `*`, at its end, matches prefixes;
/// - a pattern with one `*`, at its start, matches suffixes;
/// - a pattern with two `*`, at both ends, matches by the text between them;
/// - any other pattern with a `*` matches only the equal value;
/// - a pattern without `*` matches any value containing it, ignoring case.
pub open spec fn pattern_matches(value: Seq<char>, pattern: Seq<char>) -> bool {
    let stars = count_char(pattern, '*');
    if stars == 0 {
        text::contains_seq(text::lower_of(value), text::lower_of(pattern))
    } else if stars == 1 && pattern[pattern.len() - 1] == '*' {
        text::is_prefix_of(pattern.subrange(0, pattern.len() - 1), value)
    } else if stars == 1 && pattern[0] == '*' {
        text::is_suffix_of(pattern.subrange(1, pattern.len() as int), value)
    } else if stars == 2 && pattern[0] == '*' && pattern[pattern.len() - 1] == '*' {
        text::contains_seq(value, pattern.subrange(1, pattern.len() - 1))
    } else {
        value == pattern
    }
}

/// Count the occurrences of `c` in `s`.
fn count_char_exec(s: &str, c: char) -> (r: usize)
    ensures
        r == count_char(s@, c),
{
    let n = text::str_len(s);
    let mut count: usize = 0;
    let mut i: usize = 0;
    while i < n
        invariant
            0 <= i <= n,
            n == s@.len(),
            count == count_char(s@.subrange(0, i as int), c),
            count <= i,
        decreases n - i,
    {
        proof {
            assert(s@.subrange(0, i + 1).drop_last() =~= s@.subrange(0, i as int));
        }
        if s.get_char(i) == c {
            count += 1;
        }
        i += 1;
    }
    proof {
        assert(s@.subrange(0, n as int) =~= s@);
    }
    count
}

/// Whether `value` matches `pattern`, by wildcard shape or case-insensitive
/// substring.
pub fn matches_pattern(value: &str, pattern: &str) -> (r: bool)
    ensures
        r == pattern_matches(value@, pattern@),
{
    let n = text::str_len(pattern);
    let stars = count_char_exec(pattern, '*');
    proof {
        lemma_count_le_len(pattern@, '*');
    }
    if stars == 0 {
        let lv = text::lowercase(value);
        let lp = text::lowercase(pattern);
        text::contains_sub(lv.as_str(), lp.as_str())
    } else if stars == 1 && pattern.get_char(n - 1) == '*' {
        let prefix = text::substring(pattern, 0, n - 1);
        text::starts_with(value, prefix.as_str())
    } else if stars == 1 && pattern.get_char(0) == '*' {
        let suffix = text::substring(pattern, 1, n);
        text::ends_with(value, suffix.as_str())
    } else if stars == 2 && pattern.get_char(0) == '*' && pattern.get_char(n - 1) == '*' {
        let middle = text::substring(pattern, 1, n - 1);
        text::contains_sub(value, middle.as_str())
    } else {
        text::str_equal(value, pattern)
    }
}

/// The item's extracted name matches the pattern.
pub open spec fn kept_matches<T, F: Fn(&T) -> &str>(extractor: F, x: &T, p: Seq<char>) -> bool {
    exists|s: &str| call_ensures(extractor, (x,), s) && pattern_matches(s@, p)
}

/// Keep the items whose extracted name matches the pattern; with no pattern,
/// keep every item. Kept items appear in their original order; each kept
/// item is one of the given items whose extracted name matched.
pub fn filter_items<'a, T, F: Fn(&T) -> &str>(
    items: &'a [T],
    pattern: Option<&str>,
    extractor: F,
) -> (r: Vec<&'a T>)
    requires
        forall|i: int| 0 <= i < items@.len() ==> call_requires(extractor, (&items@[i],)),
    ensures
        r@.len() <= items@.len(),
        pattern is None ==> r@.len() == items@.len() && (forall|i: int|
            0 <= i < r@.len() ==> *r@[i] == items@[i]),
        forall|j: int| 0 <= j < r@.len() ==> items@.contains(*r@[j]),
        pattern matches Some(p) ==> (forall|j: int|
            0 <= j < r@.len() ==> kept_matches(extractor, #[trigger] r@[j], p@)),
{
    let mut r: Vec<&'a T> = Vec::new();
    let n = items.len();
    let mut i: usize = 0;
    match pattern {
        Some(p) => {
            while i < n
                invariant
                    0 <= i <= n,
                    n == items@.len(),
                    r@.len() <= i,
                    forall|i2: int| 0 <= i2 < items@.len() ==> call_requires(
                        extractor,
                        (&items@[i2],),
                    ),
                    forall|j: int| 0 <= j < r@.len() ==> items@.contains(*r@[j]),
                    forall|j: int| 0 <= j < r@.len() ==> kept_matches(
                        extractor,
                        #[trigger] r@[j],
                        p@,
                    ),
                decreases n - i,
            {
                let item = &items[i];
                let name = extractor(item);
                if matches_pattern(name, p) {
                    r.push(item);
                    proof {
                        assert(kept_matches(extractor, item, p@));
                    }
                }
                i += 1;
            }
            r
        },
        None => {
            while i < n
                invariant
                    0 <= i <= n,
                    n == items@.len(),
                    r@.len() == i,
                    forall|j: int| 0 <= j < r@.len() ==> *r@[j] == items@[j],
                    forall|j: int| 0 <= j < r@.len() ==> items@.contains(*r@[j]),
                decreases n - i,
            {
                r.push(&items[i]);
                i += 1;
            }
            r
        },
    }
}

} // verus!
