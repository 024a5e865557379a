//! Extraction of the `HH:MM:SS.mmm:` time-of-day stamp that log lines
//! carry. Combining it with the current date and zone happens outside the
//! library; this module only reads the four fields.

use vstd::prelude::*;

use crate::text::digits_value;
use crate::rules::parse_digit_run;
use crate::text::scan_class;
use crate::text::scan_end;
use crate::text::split_all_lines;
use crate::text::split_lines_all;
use crate::text::CharClass;

verus! {

/// A time-of-day stamp read off a log line.
#[derive(Debug, Clone, Copy, PartialEq, Eq, Hash)]
pub struct LogTime {
    pub hours: u8,
    pub minutes: u8,
    pub seconds: u8,
    pub milliseconds: u16,
}

/// A stamp occurs at `i`: a digit run, a colon, a digit run, a colon, a
/// digit run, one character of any kind, a digit run, and a closing colon.
pub open spec fn time_match_at(s: Seq<char>, i: int) -> bool {
    0 <= i <= s.len() && {
        let h2 = scan_end(s, CharClass::Digit, i);
        h2 > i && h2 < s.len() && s[h2] == ':' && {
            let m2 = scan_end(s, CharClass::Digit, h2 + 1);
            m2 > h2 + 1 && m2 < s.len() && s[m2] == ':' && {
                let s2 = scan_end(s, CharClass::Digit, m2 + 1);
                s2 > m2 + 1 && s2 < s.len() && {
                    let ms2 = scan_end(s, CharClass::Digit, s2 + 1);
                    ms2 > s2 + 1 && ms2 < s.len() && s[ms2] == ':'
                }
            }
        }
    }
}

/// The four field values of the stamp at `i`.
pub open spec fn time_fields(s: Seq<char>, i: int) -> (int, int, int, int) {
    let h2 = scan_end(s, CharClass::Digit, i);
    let m2 = scan_end(s, CharClass::Digit, h2 + 1);
    let s2 = scan_end(s, CharClass::Digit, m2 + 1);
    let ms2 = scan_end(s, CharClass::Digit, s2 + 1);
    (
        digits_value(s.subrange(i, h2)),
        digits_value(s.subrange(h2 + 1, m2)),
        digits_value(s.subrange(m2 + 1, s2)),
        digits_value(s.subrange(s2 + 1, ms2)),
    )
}

/// `i` is the leftmost stamp of `l`.
pub open spec fn is_first_time(l: Seq<char>, i: int) -> bool {
    time_match_at(l, i) && (forall|j: int| 0 <= j < i ==> !time_match_at(l, j))
}

/// The leftmost stamp of `l`; meaningful when one exists.
pub open spec fn first_time(l: Seq<char>) -> int {
    choose|i: int| is_first_time(l, i)
}

proof fn lemma_exists_first_time_from(l: Seq<char>, i: int)
    requires
        0 <= i,
        exists|j: int| i <= j && time_match_at(l, j),
        forall|j: int| 0 <= j < i ==> !time_match_at(l, j),
    ensures
        exists|j: int| is_first_time(l, j),
    decreases l.len() + 1 - i,
{
    if time_match_at(l, i) {
        assert(is_first_time(l, i));
    } else {
        let w = choose|j: int| i <= j && time_match_at(l, j);
        assert(i + 1 <= w && time_match_at(l, w));
        lemma_exists_first_time_from(l, i + 1);
    }
}

pub proof fn lemma_first_time(l: Seq<char>)
    requires
        exists|i: int| time_match_at(l, i),
    ensures
        is_first_time(l, first_time(l)),
{
    let w = choose|i: int| time_match_at(l, i);
    assert(0 <= w && time_match_at(l, w));
    lemma_exists_first_time_from(l, 0);
}

/// The first stamp's fields in `l`, if any.
pub open spec fn line_time(l: Seq<char>) -> Option<(int, int, int, int)> {
    if exists|i: int| time_match_at(l, i) {
        Option::Some(time_fields(l, first_time(l)))
    } else {
        Option::None
    }
}

/// The first stamp over the lines, in order.
pub open spec fn scan_time(lines: Seq<Seq<char>>) -> Option<(int, int, int, int)>
    decreases lines.len(),
{
    if lines.len() == 0 {
        Option::None
    } else {
        match line_time(lines[0]) {
            Option::Some(t) => Option::Some(t),
            Option::None => scan_time(lines.skip(1)),
        }
    }
}

/// The first stamp of the whole text, line by line.
pub open spec fn log_time_of(s: Seq<char>) -> Option<(int, int, int, int)> {
    scan_time(split_lines_all(s))
}

/// Probe for a stamp at `i`.
fn time_try_at(l: &str, i: usize) -> (r: bool)
    requires
        i <= l@.len(),
    ensures
        r == time_match_at(l@, i as int),
{
    let n = l.unicode_len();
    let h2 = scan_class(l, CharClass::Digit, i);
    if h2 == i || h2 == n || l.get_char(h2) != ':' {
        return false;
    }
    let m2 = scan_class(l, CharClass::Digit, h2 + 1);
    if m2 == h2 + 1 || m2 == n || l.get_char(m2) != ':' {
        return false;
    }
    let s2 = scan_class(l, CharClass::Digit, m2 + 1);
    if s2 == m2 + 1 || s2 == n {
        return false;
    }
    let ms2 = scan_class(l, CharClass::Digit, s2 + 1);
    if ms2 == s2 + 1 || ms2 == n || l.get_char(ms2) != ':' {
        return false;
    }
    true
}

/// Read the stamp at `i`; `None` when a field does not fit its machine
/// type.
fn time_read_at(l: &str, i: usize) -> (r: Option<LogTime>)
    requires
        time_match_at(l@, i as int),
    ensures
        ({
            let (h, m, sec, ms) = time_fields(l@, i as int);
            match r {
                Some(t) => h == t.hours && m == t.minutes && sec == t.seconds && ms
                    == t.milliseconds,
                None => !(h <= u8::MAX && m <= u8::MAX && sec <= u8::MAX && ms <= u16::MAX),
            }
        }),
{
    let n = l.unicode_len();
    let h2 = scan_class(l, CharClass::Digit, i);
    let m2 = scan_class(l, CharClass::Digit, h2 + 1);
    let s2 = scan_class(l, CharClass::Digit, m2 + 1);
    let ms2 = scan_class(l, CharClass::Digit, s2 + 1);
    proof {
        crate::text::lemma_digits_value_nonneg(l@.subrange(i as int, h2 as int));
        crate::text::lemma_digits_value_nonneg(l@.subrange(h2 as int + 1, m2 as int));
        crate::text::lemma_digits_value_nonneg(l@.subrange(m2 as int + 1, s2 as int));
        crate::text::lemma_digits_value_nonneg(l@.subrange(s2 as int + 1, ms2 as int));
    }
    let hours = parse_digit_run(l, i, h2);
    let minutes = parse_digit_run(l, h2 + 1, m2);
    let seconds = parse_digit_run(l, m2 + 1, s2);
    let millis = parse_digit_run(l, s2 + 1, ms2);
    match (hours, minutes, seconds, millis) {
        (Some(h), Some(m), Some(sec), Some(ms)) => {
            if h <= u8::MAX as isize && m <= u8::MAX as isize && sec <= u8::MAX as isize && ms
                <= u16::MAX as isize {
                Some(
                    LogTime {
                        hours: h as u8,
                        minutes: m as u8,
                        seconds: sec as u8,
                        milliseconds: ms as u16,
                    },
                )
            } else {
                None
            }
        },
        _ => None,
    }
}

/// Scan the text for its first `HH:MM:SS.mmm:` stamp; `None` when there is
/// none or its fields do not fit.
pub fn try_parse_log_time(log: &str) -> (r: Option<LogTime>)
    ensures
        match log_time_of(log@) {
            Option::None => r is None,
            Option::Some((h, m, sec, ms)) => match r {
                Some(t) => h == t.hours && m == t.minutes && sec == t.seconds && ms
                    == t.milliseconds,
                None => !(h <= u8::MAX && m <= u8::MAX && sec <= u8::MAX && ms <= u16::MAX),
            },
        },
{
    let lines = split_all_lines(log);
    let ghost all = split_lines_all(log@);
    let ln = lines.len();
    let mut li: usize = 0;
    proof {
        assert(all.skip(0) =~= all);
    }
    while li < ln
        invariant
            ln == all.len(),
            lines.deep_view() == all,
            all == split_lines_all(log@),
            0 <= li <= ln,
            scan_time(all) == scan_time(all.skip(li as int)),
        decreases ln - li,
    {
        proof {
            assert(all.skip(li as int)[0] == all[li as int]);
            assert(all.skip(li as int).skip(1) =~= all.skip(li as int + 1));
            assert(lines@[li as int]@ == all[li as int]);
        }
        let l = lines[li].as_str();
        let n = l.unicode_len();
        let mut i: usize = 0;
        let mut found: Option<LogTime> = None;
        let mut hit = false;
        while i < n && !hit
            invariant
                n == l@.len(),
                l@ == all[li as int],
                0 <= i <= n,
                forall|j: int| 0 <= j < i ==> !time_match_at(l@, j),
                !hit ==> found is None,
                hit ==> i <= n && is_first_time(l@, i as int) && ({
                    let (h, m, sec, ms) = time_fields(l@, i as int);
                    match found {
                        Some(t) => h == t.hours && m == t.minutes && sec == t.seconds && ms
                            == t.milliseconds,
                        None => !(h <= u8::MAX && m <= u8::MAX && sec <= u8::MAX && ms
                            <= u16::MAX),
                    }
                }),
            decreases n - i + (if hit {
                0int
            } else {
                1int
            }),
        {
            if time_try_at(l, i) {
                found = time_read_at(l, i);
                hit = true;
            } else {
                i += 1;
            }
        }
        if hit {
            proof {
                lemma_first_time(l@);
                assert(first_time(l@) == i as int);
                assert(line_time(l@) == Option::Some(time_fields(l@, i as int)));
            }
            return found;
        }
        proof {
            assert(l@.skip(n as int) =~= Seq::<char>::empty());
            crate::text::lemma_run_len_bounds(l@.skip(n as int), CharClass::Digit);
            assert(scan_end(l@, CharClass::Digit, n as int) == n);
            assert(!time_match_at(l@, n as int));
            assert forall|j: int| !time_match_at(l@, j) by {
                if 0 <= j < n {
                    assert(!time_match_at(l@, j));
                }
            }
            assert(line_time(l@) is None);
        }
        li += 1;
    }
    proof {
        assert(all.skip(ln as int) =~= Seq::<Seq<char>>::empty());
    }
    None
}

} // verus!
