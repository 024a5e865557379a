//! Character-level text scanning: substring search, character-class runs,
//! integer parsing and line splitting, each with an exact specification over
//! the string's view. The rule catalogue is built from these primitives.

use vstd::prelude::*;

verus! {

// ---------------------------------------------------------------------------
// Substring matching
// ---------------------------------------------------------------------------

/// `pat` occurs in `s` starting at index `i`.
pub open spec fn matches_at(s: Seq<char>, pat: Seq<char>, i: int) -> bool {
    0 <= i && i + pat.len() <= s.len() && (forall|k: int|
        0 <= k < pat.len() ==> s[i + k] == pat[k])
}

/// `pat` occurs somewhere in `s`.
pub open spec fn contains_seq(s: Seq<char>, pat: Seq<char>) -> bool {
    exists|i: int| matches_at(s, pat, i)
}

/// `i` is the leftmost occurrence of `pat` in `s`.
pub open spec fn is_first_match(s: Seq<char>, pat: Seq<char>, i: int) -> bool {
    matches_at(s, pat, i) && (forall|j: int| 0 <= j < i ==> !matches_at(s, pat, j))
}

/// The leftmost occurrence of `pat` in `s`; meaningful when `contains_seq` holds.
pub open spec fn first_match_idx(s: Seq<char>, pat: Seq<char>) -> int {
    choose|i: int| is_first_match(s, pat, i)
}

pub proof fn lemma_first_match_unique(s: Seq<char>, pat: Seq<char>, i: int, j: int)
    requires
        is_first_match(s, pat, i),
        is_first_match(s, pat, j),
    ensures
        i == j,
{
}

proof fn lemma_exists_first_from(s: Seq<char>, pat: Seq<char>, i: int)
    requires
        0 <= i,
        exists|j: int| i <= j && matches_at(s, pat, j),
        forall|j: int| 0 <= j < i ==> !matches_at(s, pat, j),
    ensures
        exists|j: int| is_first_match(s, pat, j),
    decreases s.len() - i,
{
    if matches_at(s, pat, i) {
        assert(is_first_match(s, pat, i));
    } else {
        let w = choose|j: int| i <= j && matches_at(s, pat, j);
        assert(i + 1 <= w && matches_at(s, pat, w));
        lemma_exists_first_from(s, pat, i + 1);
    }
}

pub proof fn lemma_contains_first(s: Seq<char>, pat: Seq<char>)
    requires
        contains_seq(s, pat),
    ensures
        is_first_match(s, pat, first_match_idx(s, pat)),
{
    let w = choose|i: int| matches_at(s, pat, i);
    assert(0 <= w && matches_at(s, pat, w));
    lemma_exists_first_from(s, pat, 0);
}

/// Compare two string slices character for character.
pub fn str_eq(a: &str, b: &str) -> (r: bool)
    ensures
        r <==> a@ == b@,
{
    let na = a.unicode_len();
    let nb = b.unicode_len();
    if na != nb {
        return false;
    }
    let mut k: usize = 0;
    while k < na
        invariant
            na == a@.len(),
            na == b@.len(),
            0 <= k <= na,
            forall|m: int| 0 <= m < k ==> a@[m] == b@[m],
        decreases na - k,
    {
        if a.get_char(k) != b.get_char(k) {
            return false;
        }
        k += 1;
    }
    proof {
        assert(a@ =~= b@);
    }
    true
}

/// Check whether `pat` occurs in `s` starting exactly at `i`.
fn check_match_at(s: &str, pat: &str, i: usize) -> (r: bool)
    requires
        i + pat@.len() <= s@.len(),
    ensures
        r == matches_at(s@, pat@, i as int),
{
    let n = s.unicode_len();
    let m = pat.unicode_len();
    let mut k: usize = 0;
    while k < m
        invariant
            n == s@.len(),
            m == pat@.len(),
            i + m <= n,
            0 <= k <= m,
            forall|j: int| 0 <= j < k ==> s@[i + j] == pat@[j],
        decreases m - k,
    {
        if s.get_char(i + k) != pat.get_char(k) {
            return false;
        }
        k += 1;
    }
    true
}

/// Leftmost occurrence of `pat` in `s`, if any.
pub fn find_sub(s: &str, pat: &str) -> (r: Option<usize>)
    ensures
        match r {
            Some(i) => is_first_match(s@, pat@, i as int) && i as int == first_match_idx(
                s@,
                pat@,
            ),
            None => !contains_seq(s@, pat@),
        },
{
    let n = s.unicode_len();
    let m = pat.unicode_len();
    if m > n {
        proof {
            assert(forall|i: int| !matches_at(s@, pat@, i));
        }
        return None;
    }
    let mut i: usize = 0;
    while i <= n - m
        invariant
            n == s@.len(),
            m == pat@.len(),
            m <= n,
            0 <= i <= n - m + 1,
            forall|j: int| 0 <= j < i ==> !matches_at(s@, pat@, j),
        decreases n - i,
    {
        if check_match_at(s, pat, i) {
            proof {
                assert(is_first_match(s@, pat@, i as int));
                lemma_contains_first(s@, pat@);
                lemma_first_match_unique(s@, pat@, i as int, first_match_idx(s@, pat@));
            }
            return Some(i);
        }
        i += 1;
    }
    proof {
        assert(forall|j: int| matches_at(s@, pat@, j) ==> 0 <= j <= n - m);
    }
    None
}

/// Whether `pat` occurs anywhere in `s`.
pub fn contains_sub(s: &str, pat: &str) -> (r: bool)
    ensures
        r == contains_seq(s@, pat@),
{
    match find_sub(s, pat) {
        Some(_) => true,
        None => false,
    }
}

/// `pat` occurs in `s` at or after `from`.
pub open spec fn contains_from(s: Seq<char>, pat: Seq<char>, from: int) -> bool {
    exists|i: int| from <= i && matches_at(s, pat, i)
}

/// `i` is the leftmost occurrence of `pat` at or after `from`.
pub open spec fn is_first_match_from(s: Seq<char>, pat: Seq<char>, from: int, i: int) -> bool {
    from <= i && matches_at(s, pat, i) && (forall|j: int|
        from <= j < i ==> !matches_at(s, pat, j))
}

/// The leftmost occurrence of `pat` at or after `from`; meaningful when
/// `contains_from` holds.
pub open spec fn first_match_from(s: Seq<char>, pat: Seq<char>, from: int) -> int {
    choose|i: int| is_first_match_from(s, pat, from, i)
}

pub proof fn lemma_first_match_from_unique(
    s: Seq<char>,
    pat: Seq<char>,
    from: int,
    i: int,
    j: int,
)
    requires
        is_first_match_from(s, pat, from, i),
        is_first_match_from(s, pat, from, j),
    ensures
        i == j,
{
}

proof fn lemma_exists_first_from_lower(s: Seq<char>, pat: Seq<char>, from: int, i: int)
    requires
        from <= i,
        exists|j: int| i <= j && matches_at(s, pat, j),
        forall|j: int| from <= j < i ==> !matches_at(s, pat, j),
    ensures
        exists|j: int| is_first_match_from(s, pat, from, j),
    decreases s.len() - i,
{
    if matches_at(s, pat, i) {
        assert(is_first_match_from(s, pat, from, i));
    } else {
        let w = choose|j: int| i <= j && matches_at(s, pat, j);
        assert(i + 1 <= w && matches_at(s, pat, w));
        lemma_exists_first_from_lower(s, pat, from, i + 1);
    }
}

pub proof fn lemma_contains_first_from(s: Seq<char>, pat: Seq<char>, from: int)
    requires
        contains_from(s, pat, from),
    ensures
        is_first_match_from(s, pat, from, first_match_from(s, pat, from)),
{
    lemma_exists_first_from_lower(s, pat, from, from);
}

/// Leftmost occurrence of `pat` in `s` at or after `from`, if any.
pub fn find_from(s: &str, pat: &str, from: usize) -> (r: Option<usize>)
    ensures
        match r {
            Some(i) => is_first_match_from(s@, pat@, from as int, i as int) && i as int
                == first_match_from(s@, pat@, from as int),
            None => !contains_from(s@, pat@, from as int),
        },
{
    let n = s.unicode_len();
    let m = pat.unicode_len();
    if m > n || from > n - m {
        proof {
            assert(forall|i: int| from <= i ==> !matches_at(s@, pat@, i));
        }
        return None;
    }
    let mut i: usize = from;
    while i <= n - m
        invariant
            n == s@.len(),
            m == pat@.len(),
            m <= n,
            from <= i <= n - m + 1,
            forall|j: int| from <= j < i ==> !matches_at(s@, pat@, j),
        decreases n - i,
    {
        if check_match_at(s, pat, i) {
            proof {
                assert(is_first_match_from(s@, pat@, from as int, i as int));
                lemma_contains_first_from(s@, pat@, from as int);
                lemma_first_match_from_unique(
                    s@,
                    pat@,
                    from as int,
                    i as int,
                    first_match_from(s@, pat@, from as int),
                );
            }
            return Some(i);
        }
        i += 1;
    }
    proof {
        assert(forall|j: int| matches_at(s@, pat@, j) ==> 0 <= j <= n - m);
    }
    None
}

/// `pat` occurs in `s` at some index in `[lo, hi)`.
pub open spec fn contains_in(s: Seq<char>, pat: Seq<char>, lo: int, hi: int) -> bool {
    exists|i: int| lo <= i < hi && matches_at(s, pat, i)
}

/// `i` is the rightmost occurrence of `pat` starting in `[lo, hi)`.
pub open spec fn is_last_match_in(s: Seq<char>, pat: Seq<char>, lo: int, hi: int, i: int) -> bool {
    lo <= i < hi && matches_at(s, pat, i) && (forall|k: int|
        i < k < hi ==> !matches_at(s, pat, k))
}

/// The rightmost occurrence of `pat` starting in `[lo, hi)`; meaningful
/// when `contains_in` holds.
pub open spec fn last_match_in(s: Seq<char>, pat: Seq<char>, lo: int, hi: int) -> int {
    choose|i: int| is_last_match_in(s, pat, lo, hi, i)
}

pub proof fn lemma_last_match_in_unique(
    s: Seq<char>,
    pat: Seq<char>,
    lo: int,
    hi: int,
    i: int,
    j: int,
)
    requires
        is_last_match_in(s, pat, lo, hi, i),
        is_last_match_in(s, pat, lo, hi, j),
    ensures
        i == j,
{
}

proof fn lemma_exists_last_in_below(s: Seq<char>, pat: Seq<char>, lo: int, hi: int, h: int)
    requires
        lo < h <= hi,
        exists|i: int| lo <= i < h && matches_at(s, pat, i),
        forall|k: int| h <= k < hi ==> !matches_at(s, pat, k),
    ensures
        exists|i: int| is_last_match_in(s, pat, lo, hi, i),
    decreases h - lo,
{
    if matches_at(s, pat, h - 1) {
        assert(is_last_match_in(s, pat, lo, hi, h - 1));
    } else {
        let w = choose|i: int| lo <= i < h && matches_at(s, pat, i);
        assert(lo <= w && w < h - 1);
        lemma_exists_last_in_below(s, pat, lo, hi, h - 1);
    }
}

pub proof fn lemma_contains_last_in(s: Seq<char>, pat: Seq<char>, lo: int, hi: int)
    requires
        contains_in(s, pat, lo, hi),
    ensures
        is_last_match_in(s, pat, lo, hi, last_match_in(s, pat, lo, hi)),
{
    lemma_exists_last_in_below(s, pat, lo, hi, hi);
}

/// Rightmost occurrence of `pat` starting in `[lo, hi)`, if any.
pub fn find_last_in(s: &str, pat: &str, lo: usize, hi: usize) -> (r: Option<usize>)
    requires
        lo <= hi <= s@.len(),
    ensures
        match r {
            Some(i) => is_last_match_in(s@, pat@, lo as int, hi as int, i as int) && i as int
                == last_match_in(s@, pat@, lo as int, hi as int),
            None => !contains_in(s@, pat@, lo as int, hi as int),
        },
{
    let mut best: Option<usize> = None;
    let mut i: usize = lo;
    while i < hi
        invariant
            lo <= i <= hi <= s@.len(),
            match best {
                Some(b) => lo <= b < i && matches_at(s@, pat@, b as int) && (forall|k: int|
                    b < k < i ==> !matches_at(s@, pat@, k)),
                None => forall|k: int| lo <= k < i ==> !matches_at(s@, pat@, k),
            },
        decreases hi - i,
    {
        if match_lit_at(s, pat, i) {
            best = Some(i);
        }
        i += 1;
    }
    match best {
        Some(b) => {
            proof {
                assert(is_last_match_in(s@, pat@, lo as int, hi as int, b as int));
                lemma_contains_last_in(s@, pat@, lo as int, hi as int);
                lemma_last_match_in_unique(
                    s@,
                    pat@,
                    lo as int,
                    hi as int,
                    b as int,
                    last_match_in(s@, pat@, lo as int, hi as int),
                );
            }
            Some(b)
        },
        None => None,
    }
}

/// Whether `pat` occurs in `s` at exactly `i`, with the bounds checked.
pub fn match_lit_at(s: &str, pat: &str, i: usize) -> (r: bool)
    ensures
        r == matches_at(s@, pat@, i as int),
{
    let n = s.unicode_len();
    let m = pat.unicode_len();
    if i > n || m > n - i {
        return false;
    }
    check_match_at(s, pat, i)
}

/// The index just past the leftmost occurrence of `pat` in `s`.
pub fn after_first(s: &str, pat: &str) -> (r: Option<usize>)
    ensures
        match r {
            Some(a) => contains_seq(s@, pat@) && a as int == first_match_idx(s@, pat@)
                + pat@.len() && a <= s@.len(),
            None => !contains_seq(s@, pat@),
        },
{
    let n = s.unicode_len();
    match find_sub(s, pat) {
        Some(i) => {
            let m = pat.unicode_len();
            proof {
                assert(i + pat@.len() <= n);
            }
            Some(i + m)
        },
        None => None,
    }
}

/// `s` begins with `p`.
pub open spec fn starts_with_seq(s: Seq<char>, p: Seq<char>) -> bool {
    matches_at(s, p, 0)
}

pub fn starts_with_sub(s: &str, pat: &str) -> (r: bool)
    ensures
        r == starts_with_seq(s@, pat@),
{
    let n = s.unicode_len();
    let m = pat.unicode_len();
    if m > n {
        return false;
    }
    check_match_at(s, pat, 0)
}

// ---------------------------------------------------------------------------
// Character classes
// ---------------------------------------------------------------------------

/// The character sets the rule patterns capture over.
#[derive(Clone, Copy, Debug, PartialEq, Eq)]
pub enum CharClass {
    /// `0-9`
    Digit,
    /// `0-9` and `.`
    DigitDot,
    /// `0-9` and `,`
    DigitComma,
    /// `0-9` and space
    DigitSpace,
    /// `0-9` and `-`
    DigitDash,
    /// `a-z A-Z 0-9 _`
    Word,
    /// `a-z A-Z 0-9`
    AlphaNum,
    /// `a-z A-Z 0-9 _ -`
    Ident,
    /// `a-z A-Z 0-9 _ . -`
    IdentDot,
    /// `a-z A-Z 0-9 space _ -`
    KeyChars,
    /// any character except a line feed
    NotNewline,
}

pub open spec fn is_digit_char(c: char) -> bool {
    '0' <= c && c <= '9'
}

pub open spec fn is_alpha_char(c: char) -> bool {
    ('a' <= c && c <= 'z') || ('A' <= c && c <= 'Z')
}

pub open spec fn in_class(cls: CharClass, c: char) -> bool {
    match cls {
        CharClass::Digit => is_digit_char(c),
        CharClass::DigitDot => is_digit_char(c) || c == '.',
        CharClass::DigitComma => is_digit_char(c) || c == ',',
        CharClass::DigitSpace => is_digit_char(c) || c == ' ',
        CharClass::DigitDash => is_digit_char(c) || c == '-',
        CharClass::Word => is_alpha_char(c) || is_digit_char(c) || c == '_',
        CharClass::AlphaNum => is_alpha_char(c) || is_digit_char(c),
        CharClass::Ident => is_alpha_char(c) || is_digit_char(c) || c == '_' || c == '-',
        CharClass::IdentDot => is_alpha_char(c) || is_digit_char(c) || c == '_' || c == '.' || c
            == '-',
        CharClass::KeyChars => is_alpha_char(c) || is_digit_char(c) || c == ' ' || c == '_' || c
            == '-',
        CharClass::NotNewline => c != '\n',
    }
}

pub fn char_in_class(cls: CharClass, c: char) -> (r: bool)
    ensures
        r == in_class(cls, c),
{
    let digit = '0' <= c && c <= '9';
    let alpha = ('a' <= c && c <= 'z') || ('A' <= c && c <= 'Z');
    match cls {
        CharClass::Digit => digit,
        CharClass::DigitDot => digit || c == '.',
        CharClass::DigitComma => digit || c == ',',
        CharClass::DigitSpace => digit || c == ' ',
        CharClass::DigitDash => digit || c == '-',
        CharClass::Word => alpha || digit || c == '_',
        CharClass::AlphaNum => alpha || digit,
        CharClass::Ident => alpha || digit || c == '_' || c == '-',
        CharClass::IdentDot => alpha || digit || c == '_' || c == '.' || c == '-',
        CharClass::KeyChars => alpha || digit || c == ' ' || c == '_' || c == '-',
        CharClass::NotNewline => c != '\n',
    }
}

// ---------------------------------------------------------------------------
// Character-class runs
// ---------------------------------------------------------------------------

/// Length of the longest prefix of `s` whose characters all lie in `cls`.
pub open spec fn run_len(s: Seq<char>, cls: CharClass) -> int
    decreases s.len(),
{
    if s.len() == 0 {
        0
    } else if !in_class(cls, s[0]) {
        0
    } else {
        1 + run_len(s.skip(1), cls)
    }
}

/// End of the class run that begins at `from`: every character in
/// `[from, scan_end)` lies in `cls`, and the run is maximal.
pub open spec fn scan_end(s: Seq<char>, cls: CharClass, from: int) -> int {
    from + run_len(s.skip(from), cls)
}

pub proof fn lemma_run_len_bounds(s: Seq<char>, cls: CharClass)
    ensures
        0 <= run_len(s, cls) <= s.len(),
        forall|k: int| 0 <= k < run_len(s, cls) ==> in_class(cls, s[k]),
        run_len(s, cls) == s.len() || !in_class(cls, s[run_len(s, cls)]),
    decreases s.len(),
{
    if s.len() == 0 {
    } else if !in_class(cls, s[0]) {
    } else {
        lemma_run_len_bounds(s.skip(1), cls);
        assert forall|k: int| 0 <= k < run_len(s, cls) implies in_class(cls, s[k]) by {
            if k > 0 {
                assert(s.skip(1)[k - 1] == s[k]);
            }
        }
        if run_len(s, cls) < s.len() {
            assert(s.skip(1)[run_len(s, cls) - 1] == s[run_len(s, cls)]);
        }
    }
}

/// The characterisation of `scan_end` at an interior starting point.
pub proof fn lemma_scan_end(s: Seq<char>, cls: CharClass, from: int)
    requires
        0 <= from <= s.len(),
    ensures
        from <= scan_end(s, cls, from) <= s.len(),
        forall|k: int| from <= k < scan_end(s, cls, from) ==> in_class(cls, s[k]),
        scan_end(s, cls, from) == s.len() || !in_class(cls, s[scan_end(s, cls, from)]),
{
    let t = s.skip(from);
    lemma_run_len_bounds(t, cls);
    assert forall|k: int| from <= k < scan_end(s, cls, from) implies in_class(cls, s[k]) by {
        assert(t[k - from] == s[k]);
    }
    if scan_end(s, cls, from) < s.len() {
        assert(t[run_len(t, cls)] == s[scan_end(s, cls, from)]);
    }
}

/// Walk to the end of the class run that starts at `from`.
pub fn scan_class(s: &str, cls: CharClass, from: usize) -> (j: usize)
    requires
        from <= s@.len(),
    ensures
        j as int == scan_end(s@, cls, from as int),
        from <= j <= s@.len(),
        forall|k: int| from <= k < j ==> in_class(cls, s@[k]),
        j as int == s@.len() || !in_class(cls, s@[j as int]),
{
    proof {
        lemma_scan_end(s@, cls, from as int);
    }
    let n = s.unicode_len();
    let mut j: usize = from;
    while j < n
        invariant
            n == s@.len(),
            from <= j <= n,
            forall|k: int| from <= k < j ==> in_class(cls, s@[k]),
            j as int <= scan_end(s@, cls, from as int),
        decreases n - j,
    {
        proof {
            lemma_scan_end(s@, cls, from as int);
        }
        if !char_in_class(cls, s.get_char(j)) {
            proof {
                let e = scan_end(s@, cls, from as int);
                if (j as int) < e {
                    assert(in_class(cls, s@[j as int]));
                }
            }
            return j;
        }
        proof {
            let e = scan_end(s@, cls, from as int);
            if j as int == e {
                assert(!in_class(cls, s@[e]));
            }
        }
        j += 1;
    }
    proof {
        lemma_scan_end(s@, cls, from as int);
    }
    j
}

// ---------------------------------------------------------------------------
// Integer text
// ---------------------------------------------------------------------------

/// Numeric value of a digit character.
pub open spec fn digit_val(c: char) -> int {
    c as u32 - '0' as u32
}

/// Every character of `s` is a decimal digit.
pub open spec fn all_digits(s: Seq<char>) -> bool {
    forall|k: int| 0 <= k < s.len() ==> is_digit_char(s[k])
}

/// The base-ten value of a digit string.
pub open spec fn digits_value(s: Seq<char>) -> int
    decreases s.len(),
{
    if s.len() == 0 {
        0
    } else {
        10 * digits_value(s.drop_last()) + digit_val(s.last())
    }
}

/// `s` is a decimal integer: digits, optionally preceded by a minus sign.
pub open spec fn is_int_text(s: Seq<char>) -> bool {
    if s.len() > 0 && s[0] == '-' {
        s.len() >= 2 && all_digits(s.skip(1))
    } else {
        s.len() >= 1 && all_digits(s)
    }
}

/// The signed value of a decimal integer string.
pub open spec fn int_text_value(s: Seq<char>) -> int {
    if s.len() > 0 && s[0] == '-' {
        -digits_value(s.skip(1))
    } else {
        digits_value(s)
    }
}

pub proof fn lemma_digits_value_nonneg(s: Seq<char>)
    requires
        all_digits(s),
    ensures
        digits_value(s) >= 0,
    decreases s.len(),
{
    if s.len() > 0 {
        lemma_digits_value_nonneg(s.drop_last());
    }
}

/// A digit string is worth at least any of its prefixes.
pub proof fn lemma_digits_prefix(s: Seq<char>, k: int)
    requires
        all_digits(s),
        0 <= k <= s.len(),
    ensures
        digits_value(s.subrange(0, k)) <= digits_value(s),
    decreases s.len() - k,
{
    if k < s.len() {
        assert(s.subrange(0, k + 1).drop_last() =~= s.subrange(0, k));
        assert(s.subrange(0, k + 1).last() == s[k]);
        assert(all_digits(s.subrange(0, k)));
        lemma_digits_value_nonneg(s.subrange(0, k));
        lemma_digits_prefix(s, k + 1);
    } else {
        assert(s.subrange(0, k) =~= s);
    }
}

/// Parse `s[from..to]` as a signed decimal integer. Returns the value
/// exactly when the text is an integer that fits in `isize`.
pub fn parse_int_range(s: &str, from: usize, to: usize) -> (r: Option<isize>)
    requires
        from <= to <= s@.len(),
    ensures
        ({
            let t = s@.subrange(from as int, to as int);
            &&& (r matches Some(v) ==> is_int_text(t) && v as int == int_text_value(t))
            &&& (is_int_text(t) && isize::MIN <= int_text_value(t) <= isize::MAX ==> r is Some)
        }),
{
    let ghost t = s@.subrange(from as int, to as int);
    if from == to {
        return None;
    }
    let negative = s.get_char(from) == '-';
    let start = if negative {
        from + 1
    } else {
        from
    };
    let ghost dp = s@.subrange(start as int, to as int);
    proof {
        if negative {
            assert(dp =~= t.skip(1));
        } else {
            assert(dp =~= t);
        }
    }
    if start == to {
        // the text is just a minus sign
        return None;
    }
    let mut acc: isize = 0;
    let mut i: usize = start;
    while i < to
        invariant
            from <= start <= i <= to <= s@.len(),
            t == s@.subrange(from as int, to as int),
            dp == s@.subrange(start as int, to as int),
            negative ==> t.len() > 0 && t[0] == '-' && dp =~= t.skip(1),
            !negative ==> dp =~= t && (t.len() == 0 || t[0] != '-'),
            start < to,
            forall|k: int| 0 <= k < i - start ==> is_digit_char(dp[k]),
            !negative ==> acc as int == digits_value(dp.subrange(0, i - start)),
            negative ==> acc as int == -digits_value(dp.subrange(0, i - start)),
        decreases to - i,
    {
        let c = s.get_char(i);
        if !('0' <= c && c <= '9') {
            proof {
                assert(dp[i - start] == s@[i as int]);
                assert(!all_digits(dp));
            }
            return None;
        }
        let d = (c as u32 - '0' as u32) as isize;
        let ghost pre = dp.subrange(0, i - start);
        let ghost pre1 = dp.subrange(0, i - start + 1);
        proof {
            assert(pre1.drop_last() =~= pre);
            assert(pre1.last() == dp[i - start]);
            assert(dp[i - start] == s@[i as int]);
        }
        let step = if negative {
            match acc.checked_mul(10) {
                Some(a) => a.checked_sub(d),
                None => None,
            }
        } else {
            match acc.checked_mul(10) {
                Some(a) => a.checked_add(d),
                None => None,
            }
        };
        match step {
            Some(a) => {
                acc = a;
            },
            None => {
                proof {
                    if is_int_text(t) {
                        assert(all_digits(dp));
                        lemma_digits_prefix(dp, i - start + 1);
                        lemma_digits_value_nonneg(pre);
                        assert(digits_value(pre1) == 10 * digits_value(pre) + digit_val(
                            dp[i - start],
                        ));
                        assert(digits_value(dp) >= digits_value(pre1));
                    }
                }
                return None;
            },
        }
        i += 1;
    }
    proof {
        assert(dp.subrange(0, to - start) =~= dp);
        assert(all_digits(dp));
        if negative {
            assert(is_int_text(t));
            assert(int_text_value(t) == -digits_value(dp));
        } else {
            assert(is_int_text(t));
            assert(int_text_value(t) == digits_value(dp));
        }
    }
    Some(acc)
}

/// Filtering distributes over concatenation.
pub proof fn lemma_filter_add<A>(x: Seq<A>, y: Seq<A>, pred: spec_fn(A) -> bool)
    ensures
        (x + y).filter(pred) == x.filter(pred) + y.filter(pred),
    decreases y.len(),
{
    reveal(Seq::filter);
    if y.len() == 0 {
        assert(x + y =~= x);
        assert(y.filter(pred) =~= Seq::<A>::empty());
        assert(x.filter(pred) + y.filter(pred) =~= x.filter(pred));
    } else {
        let y2 = y.drop_last();
        lemma_filter_add(x, y2, pred);
        assert((x + y).drop_last() =~= x + y2);
        assert((x + y).last() == y.last());
        if pred(y.last()) {
            assert((x + y).filter(pred) =~= (x + y2).filter(pred).push(y.last()));
            assert(x.filter(pred) + y.filter(pred) =~= (x.filter(pred) + y2.filter(
                pred,
            )).push(y.last()));
        } else {
            assert(x.filter(pred) + y.filter(pred) =~= x.filter(pred) + y2.filter(pred));
        }
    }
}

// ---------------------------------------------------------------------------
// Digit runs with interior spaces
// ---------------------------------------------------------------------------

/// `t` with every occurrence of `sep` removed.
pub open spec fn strip_char(t: Seq<char>, sep: char) -> Seq<char> {
    t.filter(|c: char| c != sep)
}

/// `t` with its spaces removed.
pub open spec fn strip_spaces(t: Seq<char>) -> Seq<char> {
    strip_char(t, ' ')
}

/// Removing the separator from digit-and-separator text leaves digits.
pub proof fn lemma_strip_char_digits(t: Seq<char>, sep: char)
    requires
        forall|k: int| 0 <= k < t.len() ==> is_digit_char(t[k]) || t[k] == sep,
    ensures
        all_digits(strip_char(t, sep)),
    decreases t.len(),
{
    reveal(Seq::filter);
    if t.len() > 0 {
        lemma_strip_char_digits(t.drop_last(), sep);
        if t.last() != sep {
            assert(strip_char(t, sep) =~= strip_char(t.drop_last(), sep).push(t.last()));
        }
    }
}

/// Parse a run of digits and spaces the way a party id reads: spaces
/// removed, the rest read as a number. The outer `None` is the
/// overflow case; the inner `None` means the run held no digit.
pub fn parse_sep_digit_run(s: &str, a: usize, b: usize, sep: char) -> (r: Option<
    Option<isize>,
>)
    requires
        a <= b <= s@.len(),
        forall|k: int| a <= k < b ==> is_digit_char(s@[k]) || s@[k] == sep,
    ensures
        ({
            let t = strip_char(s@.subrange(a as int, b as int), sep);
            match r {
                Some(opt) => match opt {
                    Some(v) => t.len() > 0 && digits_value(t) <= isize::MAX && v as int
                        == digits_value(t),
                    None => t.len() == 0,
                },
                None => t.len() > 0 && digits_value(t) > isize::MAX,
            }
        }),
{
    let ghost whole = s@.subrange(a as int, b as int);
    let mut acc: isize = 0;
    let mut seen: bool = false;
    let mut i: usize = a;
    proof {
        reveal(Seq::filter);
        assert(s@.subrange(a as int, a as int) =~= Seq::<char>::empty());
        assert(strip_char(Seq::<char>::empty(), sep) =~= Seq::<char>::empty());
    }
    while i < b
        invariant
            a <= i <= b <= s@.len(),
            whole == s@.subrange(a as int, b as int),
            forall|k: int| a <= k < b ==> is_digit_char(s@[k]) || s@[k] == sep,
            all_digits(strip_char(s@.subrange(a as int, i as int), sep)),
            seen == (strip_char(s@.subrange(a as int, i as int), sep).len() > 0),
            acc as int == digits_value(strip_char(s@.subrange(a as int, i as int), sep)),
            acc >= 0,
        decreases b - i,
    {
        let c = s.get_char(i);
        let ghost pre = s@.subrange(a as int, i as int);
        let ghost pre1 = s@.subrange(a as int, i as int + 1);
        proof {
            reveal(Seq::filter);
            assert(pre1.drop_last() =~= pre);
            assert(pre1.last() == s@[i as int]);
            if s@[i as int] != sep {
                assert(strip_char(pre1, sep) =~= strip_char(pre, sep).push(s@[i as int]));
                assert(strip_char(pre1, sep).drop_last() =~= strip_char(pre, sep));
            } else {
                assert(strip_char(pre1, sep) =~= strip_char(pre, sep));
            }
        }
        if c != sep {
            let d = (c as u32 - '0' as u32) as isize;
            let step = match acc.checked_mul(10) {
                Some(x) => x.checked_add(d),
                None => None,
            };
            match step {
                Some(x) => {
                    acc = x;
                    seen = true;
                },
                None => {
                    proof {
                        let t = strip_char(whole, sep);
                        assert(whole =~= pre1 + s@.subrange(i as int + 1, b as int));
                        lemma_filter_add(
                            pre1,
                            s@.subrange(i as int + 1, b as int),
                            |ch: char| ch != sep,
                        );
                        lemma_strip_char_digits(whole, sep);
                        lemma_digits_prefix(t, strip_char(pre1, sep).len() as int);
                        assert(t.subrange(0, strip_char(pre1, sep).len() as int) =~= strip_char(
                            pre1,
                            sep,
                        ));
                        lemma_digits_value_nonneg(strip_char(pre, sep));
                    }
                    return None;
                },
            }
        }
        i += 1;
    }
    proof {
        assert(s@.subrange(a as int, b as int) =~= whole);
    }
    if seen {
        Some(Some(acc))
    } else {
        Some(None)
    }
}

// ---------------------------------------------------------------------------
// Line splitting
// ---------------------------------------------------------------------------

/// Drop one trailing carriage return, as `str::lines` does for a line that a
/// line feed terminated.
pub open spec fn strip_cr(l: Seq<char>) -> Seq<char> {
    if l.len() > 0 && l.last() == '\r' {
        l.drop_last()
    } else {
        l
    }
}

/// Index of the first line feed in `s`, or `s.len()` if there is none.
pub open spec fn first_nl(s: Seq<char>) -> int {
    run_len(s, CharClass::NotNewline)
}

/// `run_len` is pinned down by the run's characterisation.
pub proof fn lemma_run_len_is(s: Seq<char>, cls: CharClass, j: int)
    requires
        0 <= j <= s.len(),
        forall|k: int| 0 <= k < j ==> in_class(cls, s[k]),
        j == s.len() || !in_class(cls, s[j]),
    ensures
        run_len(s, cls) == j,
{
    lemma_run_len_bounds(s, cls);
    let r = run_len(s, cls);
    if r < j {
        assert(in_class(cls, s[r]));
        assert(!in_class(cls, s[r]));
    }
    if r > j {
        assert(in_class(cls, s[j]));
    }
}

/// The lines of `s`, as `str::lines` yields them: split at line feeds, one
/// trailing carriage return removed from each terminated line, the final
/// segment kept as it stands, a trailing empty segment dropped.
pub open spec fn split_lines_all(s: Seq<char>) -> Seq<Seq<char>>
    decreases s.len(),
    via split_lines_all_dec
{
    if s.len() == 0 {
        Seq::empty()
    } else {
        let j = first_nl(s);
        if j == s.len() {
            seq![s]
        } else {
            seq![strip_cr(s.subrange(0, j))] + split_lines_all(
                s.subrange(j + 1, s.len() as int),
            )
        }
    }
}

#[via_fn]
proof fn split_lines_all_dec(s: Seq<char>) {
    lemma_run_len_bounds(s, CharClass::NotNewline);
}

/// Only the terminated lines of `s`: the trailing segment that no line feed
/// closes is left out.
pub open spec fn complete_lines(s: Seq<char>) -> Seq<Seq<char>>
    decreases s.len(),
    via complete_lines_dec
{
    if s.len() == 0 {
        Seq::empty()
    } else {
        let j = first_nl(s);
        if j == s.len() {
            Seq::empty()
        } else {
            seq![strip_cr(s.subrange(0, j))] + complete_lines(s.subrange(j + 1, s.len() as int))
        }
    }
}

#[via_fn]
proof fn complete_lines_dec(s: Seq<char>) {
    lemma_run_len_bounds(s, CharClass::NotNewline);
}

/// Terminated lines concatenate segment by segment: if `a` ends at a line
/// boundary, the lines of `a + b` are the lines of `a` followed by those of
/// `b`.
pub proof fn lemma_complete_lines_concat(a: Seq<char>, b: Seq<char>)
    requires
        a.len() == 0 || a.last() == '\n',
    ensures
        complete_lines(a + b) == complete_lines(a) + complete_lines(b),
    decreases a.len(),
{
    if a.len() == 0 {
        assert(a + b =~= b);
        assert(complete_lines(a) + complete_lines(b) =~= complete_lines(b));
    } else {
        let j = first_nl(a);
        lemma_run_len_bounds(a, CharClass::NotNewline);
        assert(!in_class(CharClass::NotNewline, a.last()));
        assert(j < a.len());
        let c = a + b;
        lemma_run_len_is(c, CharClass::NotNewline, j);
        assert(first_nl(c) == j);
        assert(c.subrange(0, j) =~= a.subrange(0, j));
        let a2 = a.subrange(j + 1, a.len() as int);
        assert(c.subrange(j + 1, c.len() as int) =~= a2 + b);
        if a2.len() > 0 {
            assert(a2.last() == a.last());
        }
        lemma_complete_lines_concat(a2, b);
        assert(complete_lines(a) + complete_lines(b) =~= seq![strip_cr(a.subrange(0, j))] + (
        complete_lines(a2) + complete_lines(b)));
    }
}

/// All lines of `s`, executably.
pub fn split_all_lines(s: &str) -> (r: Vec<String>)
    ensures
        r.deep_view() == split_lines_all(s@),
{
    let n = s.unicode_len();
    let mut res: Vec<String> = Vec::new();
    let mut pos: usize = 0;
    proof {
        assert(s@.subrange(0, n as int) =~= s@);
    }
    while pos < n
        invariant
            n == s@.len(),
            0 <= pos <= n,
            split_lines_all(s@) =~~= res.deep_view() + split_lines_all(
                s@.subrange(pos as int, n as int),
            ),
        decreases n + 1 - pos,
    {
        let ghost t = s@.subrange(pos as int, n as int);
        proof {
            assert(t =~= s@.skip(pos as int));
        }
        let j = scan_class(s, CharClass::NotNewline, pos);
        proof {
            assert(first_nl(t) == j - pos);
        }
        if j == n {
            let piece = s.substring_char(pos, n).to_owned();
            proof {
                assert(piece@ == t);
                assert(split_lines_all(t) =~= seq![t]);
                assert(s@.subrange(n as int, n as int) =~= Seq::<char>::empty());
            }
            res.push(piece);
            pos = n;
        } else {
            let line_end = if j > pos && s.get_char(j - 1) == '\r' {
                j - 1
            } else {
                j
            };
            let piece = s.substring_char(pos, line_end).to_owned();
            proof {
                let seg = t.subrange(0, j - pos);
                assert(seg =~= s@.subrange(pos as int, j as int));
                if j > pos && s@[j - 1] == '\r' {
                    assert(seg.last() == '\r');
                    assert(strip_cr(seg) =~= s@.subrange(pos as int, line_end as int));
                } else {
                    if seg.len() > 0 {
                        assert(seg.last() == s@[j - 1]);
                    }
                    assert(strip_cr(seg) =~= s@.subrange(pos as int, line_end as int));
                }
                assert(piece@ == strip_cr(seg));
                assert(t.subrange(j - pos + 1, t.len() as int) =~= s@.subrange(
                    j + 1,
                    n as int,
                ));
            }
            res.push(piece);
            pos = j + 1;
        }
    }
    proof {
        assert(s@.subrange(pos as int, n as int) =~= Seq::<char>::empty());
        assert(res.deep_view() =~~= res.deep_view() + split_lines_all(
            Seq::<char>::empty(),
        ));
    }
    res
}

/// The terminated lines of `s`, executably.
pub fn split_complete_lines(s: &str) -> (r: Vec<String>)
    ensures
        r.deep_view() == complete_lines(s@),
{
    let n = s.unicode_len();
    let mut res: Vec<String> = Vec::new();
    let mut pos: usize = 0;
    proof {
        assert(s@.subrange(0, n as int) =~= s@);
    }
    while pos < n
        invariant
            n == s@.len(),
            0 <= pos <= n,
            complete_lines(s@) =~~= res.deep_view() + complete_lines(
                s@.subrange(pos as int, n as int),
            ),
        decreases n + 1 - pos,
    {
        let ghost t = s@.subrange(pos as int, n as int);
        proof {
            assert(t =~= s@.skip(pos as int));
        }
        let j = scan_class(s, CharClass::NotNewline, pos);
        proof {
            assert(first_nl(t) == j - pos);
        }
        if j == n {
            proof {
                assert(complete_lines(t) =~= Seq::<Seq<char>>::empty());
                assert(res.deep_view() =~~= res.deep_view() + complete_lines(t));
            }
            pos = n;
        } else {
            let line_end = if j > pos && s.get_char(j - 1) == '\r' {
                j - 1
            } else {
                j
            };
            let piece = s.substring_char(pos, line_end).to_owned();
            proof {
                let seg = t.subrange(0, j - pos);
                assert(seg =~= s@.subrange(pos as int, j as int));
                if j > pos && s@[j - 1] == '\r' {
                    assert(seg.last() == '\r');
                    assert(strip_cr(seg) =~= s@.subrange(pos as int, line_end as int));
                } else {
                    if seg.len() > 0 {
                        assert(seg.last() == s@[j - 1]);
                    }
                    assert(strip_cr(seg) =~= s@.subrange(pos as int, line_end as int));
                }
                assert(piece@ == strip_cr(seg));
                assert(t.subrange(j - pos + 1, t.len() as int) =~= s@.subrange(
                    j + 1,
                    n as int,
                ));
            }
            res.push(piece);
            pos = j + 1;
        }
    }
    proof {
        assert(s@.subrange(pos as int, n as int) =~= Seq::<char>::empty());
        assert(res.deep_view() =~~= res.deep_view() + complete_lines(Seq::<char>::empty()));
    }
    res
}

} // verus!
