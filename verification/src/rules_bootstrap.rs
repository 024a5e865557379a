//! The player-bootstrap and spectator-target rules: the log lines that carry
//! a free-form player name followed by bracketed ids. Because the name is
//! free text, the delimiters that close it cannot simply be taken at their
//! first occurrence: the name itself may contain them.

use vstd::prelude::*;

use crate::common::platform_of;
use crate::common::FGPlatform;
use crate::messages::FGGameMessage;
use crate::messages::GameMessageView;
use crate::parser::ParseResult;
use crate::rules::capture_start;
use crate::rules::digit_run_fits;
use crate::rules::parse_digit_run;
use crate::text::contains_from;
use crate::text::contains_in;
use crate::text::contains_seq;
use crate::text::digits_value;
use crate::text::find_from;
use crate::text::find_last_in;
use crate::text::first_match_from;
use crate::text::in_class;
use crate::text::last_match_in;
use crate::text::lemma_contains_last_in;
use crate::text::match_lit_at;
use crate::text::matches_at;
use crate::text::parse_sep_digit_run;
use crate::text::scan_class;
use crate::text::scan_end;
use crate::text::strip_spaces;
use crate::text::after_first;
use crate::text::CharClass;

verus! {

/// What a bootstrap line yields: no capture, a fatal numeric field, or the
/// three ids.
pub enum BootstrapOutcome {
    NoCapture,
    Fatal,
    Fields { player_id: int, net_player_id: int, squad_id: Option<int> },
}

/// A net-id anchor sits at `i`: ` [` followed directly by a non-empty
/// digit run and `] (`. The player name may itself contain ` [`; only an
/// occurrence that the net id and its closing really follow counts.
pub open spec fn net_anchor_at(s: Seq<char>, i: int) -> bool {
    matches_at(s, " ["@, i) && {
        let b = scan_end(s, CharClass::Digit, i + 2);
        b > i + 2 && matches_at(s, "] ("@, b)
    }
}

/// `i` is the leftmost net-id anchor at or after `from`.
pub open spec fn is_first_net_anchor_from(s: Seq<char>, from: int, i: int) -> bool {
    from <= i && net_anchor_at(s, i) && (forall|j: int| from <= j < i ==> !net_anchor_at(s, j))
}

/// The leftmost net-id anchor at or after `from`; meaningful when one
/// exists.
pub open spec fn first_net_anchor_from(s: Seq<char>, from: int) -> int {
    choose|i: int| is_first_net_anchor_from(s, from, i)
}

proof fn lemma_exists_first_net_anchor(s: Seq<char>, from: int, i: int)
    requires
        from <= i,
        exists|j: int| i <= j && net_anchor_at(s, j),
        forall|j: int| from <= j < i ==> !net_anchor_at(s, j),
    ensures
        exists|j: int| is_first_net_anchor_from(s, from, j),
    decreases s.len() - i,
{
    if net_anchor_at(s, i) {
        assert(is_first_net_anchor_from(s, from, i));
    } else {
        let w = choose|j: int| i <= j && net_anchor_at(s, j);
        assert(i + 1 <= w && net_anchor_at(s, w));
        lemma_exists_first_net_anchor(s, from, i + 1);
    }
}

pub proof fn lemma_first_net_anchor(s: Seq<char>, from: int)
    requires
        exists|i: int| from <= i && net_anchor_at(s, i),
    ensures
        is_first_net_anchor_from(s, from, first_net_anchor_from(s, from)),
{
    lemma_exists_first_net_anchor(s, from, from);
}

/// Both bootstrap rules carry one capture shape: name, bracketed net id,
/// parenthesised class, then the player and squad ids. A player or net id
/// too large for the machine is fatal; a squad id too large stays absent.
pub open spec fn bootstrap_fields(s: Seq<char>, gate: Seq<char>) -> BootstrapOutcome {
    if !contains_seq(s, gate) {
        BootstrapOutcome::NoCapture
    } else {
        let a = capture_start(s, gate);
        if !(exists|i: int| a + 1 <= i && net_anchor_at(s, i)) {
            BootstrapOutcome::NoCapture
        } else {
            let i1 = first_net_anchor_from(s, a + 1);
            let b0 = i1 + 2;
            let b = scan_end(s, CharClass::Digit, b0);
            let c = b + 3;
            if !contains_from(s, "), playerID = "@, c) {
                BootstrapOutcome::NoCapture
            } else {
                let j = first_match_from(s, "), playerID = "@, c);
                let d = j + "), playerID = "@.len();
                let e = scan_end(s, CharClass::Digit, d);
                if j == c || e == d || !matches_at(s, ", squadID = "@, e) {
                    BootstrapOutcome::NoCapture
                } else {
                    let f = e + ", squadID = "@.len();
                    let g = scan_end(s, CharClass::Digit, f);
                    if g == f {
                        BootstrapOutcome::NoCapture
                    } else if digit_run_fits(s, d, e) && digit_run_fits(s, b0, b) {
                        BootstrapOutcome::Fields {
                            player_id: digits_value(s.subrange(d, e)),
                            net_player_id: digits_value(s.subrange(b0, b)),
                            squad_id: if digit_run_fits(s, f, g) {
                                Option::Some(digits_value(s.subrange(f, g)))
                            } else {
                                Option::None
                            },
                        }
                    } else {
                        BootstrapOutcome::Fatal
                    }
                }
            }
        }
    }
}

/// Probe for a net-id anchor at `i`.
fn net_try_at(l: &str, i: usize) -> (r: bool)
    ensures
        r == net_anchor_at(l@, i as int),
{
    if !match_lit_at(l, " [", i) {
        return false;
    }
    let n = l.unicode_len();
    proof {
        reveal_strlit(" [");
        assert(i + 2 <= n);
    }
    let b = scan_class(l, CharClass::Digit, i + 2);
    b > i + 2 && match_lit_at(l, "] (", b)
}

/// Run the shared bootstrap capture.
fn bootstrap_capture(input: &str, gate: &str) -> (r: ParseResult<(isize, isize, Option<isize>)>)
    ensures
        match bootstrap_fields(input@, gate@) {
            BootstrapOutcome::NoCapture => r == ParseResult::<(isize, isize, Option<isize>)>::NoMatch,
            BootstrapOutcome::Fatal => r == ParseResult::<(isize, isize, Option<isize>)>::Unreachable,
            BootstrapOutcome::Fields { player_id, net_player_id, squad_id } => match r {
                ParseResult::Parsed((p, n, sq)) => p as int == player_id && n as int
                    == net_player_id && (match (sq, squad_id) {
                    (Option::Some(x), Option::Some(y)) => x as int == y,
                    (Option::None, Option::None) => true,
                    _ => false,
                }),
                _ => false,
            },
        },
{
    match after_first(input, gate) {
        None => ParseResult::NoMatch,
        Some(a) => {
            let n = input.unicode_len();
            if a >= n {
                proof {
                    assert(forall|i: int| a + 1 <= i ==> !net_anchor_at(input@, i));
                }
                return ParseResult::NoMatch;
            }
            let mut i: usize = a + 1;
            let mut found: Option<usize> = None;
            while i < n && found.is_none()
                invariant
                    n == input@.len(),
                    a + 1 <= i <= n,
                    forall|j: int| a + 1 <= j < i ==> !net_anchor_at(input@, j),
                    match found {
                        Some(v) => v == i && net_anchor_at(input@, v as int),
                        None => true,
                    },
                decreases n - i + (if found.is_none() {
                    1int
                } else {
                    0int
                }),
            {
                if net_try_at(input, i) {
                    found = Some(i);
                } else {
                    i += 1;
                }
            }
            match found {
                None => {
                    proof {
                        reveal_strlit(" [");
                        assert forall|j: int| a + 1 <= j implies !net_anchor_at(input@, j) by {
                            if j < n {
                                assert(!net_anchor_at(input@, j));
                            } else {
                                assert(!matches_at(input@, " ["@, j));
                            }
                        }
                    }
                    ParseResult::NoMatch
                },
                Some(i1) => {
                    proof {
                        assert(is_first_net_anchor_from(input@, a as int + 1, i1 as int));
                        lemma_first_net_anchor(input@, a as int + 1);
                        assert(first_net_anchor_from(input@, a as int + 1) == i1 as int);
                        reveal_strlit(" [");
                        assert(i1 + 2 <= n);
                    }
                    let b0 = i1 + 2;
                    let b = scan_class(input, CharClass::Digit, b0);
                    proof {
                        reveal_strlit("] (");
                        assert(matches_at(input@, "] ("@, b as int));
                        assert(b + 3 <= n);
                    }
                    let c = b + 3;
                    match find_from(input, "), playerID = ", c) {
                        None => ParseResult::NoMatch,
                        Some(j) => {
                            let plit = "), playerID = ";
                            proof {
                                assert(j + plit@.len() <= n);
                            }
                            let d = j + plit.unicode_len();
                            let e = scan_class(input, CharClass::Digit, d);
                            let slit = ", squadID = ";
                            if j == c || e == d || !match_lit_at(input, slit, e) {
                                return ParseResult::NoMatch;
                            }
                            proof {
                                assert(e + slit@.len() <= n);
                            }
                            let f = e + slit.unicode_len();
                            let g = scan_class(input, CharClass::Digit, f);
                            if g == f {
                                return ParseResult::NoMatch;
                            }
                            let pid = parse_digit_run(input, d, e);
                            let net = parse_digit_run(input, b0, b);
                            let sq = parse_digit_run(input, f, g);
                            match (pid, net) {
                                (Some(p), Some(nv)) => ParseResult::Parsed((p, nv, sq)),
                                _ => ParseResult::Unreachable,
                            }
                        },
                    }
                },
            }
        },
    }
}

/// Outcome of the remote-player bootstrap rule.
pub open spec fn handle_remote_player_eval(s: Seq<char>) -> ParseResult<GameMessageView> {
    match bootstrap_fields(s, "[ClientGameManager] Handling bootstrap for remote player "@) {
        BootstrapOutcome::NoCapture => ParseResult::NoMatch,
        BootstrapOutcome::Fatal => ParseResult::Unreachable,
        BootstrapOutcome::Fields { player_id, net_player_id, squad_id } => ParseResult::Parsed(
            GameMessageView::HandleRemotePlayer { player_id, net_player_id, squad_id },
        ),
    }
}

/// `Handling bootstrap for remote player NAME [net] (class), playerID = n,
/// squadID = m` carries a remote player's ids.
pub fn handle_remote_player(input: &str) -> (r: ParseResult<FGGameMessage>)
    ensures
        r@ == handle_remote_player_eval(input@),
{
    match bootstrap_capture(input, "[ClientGameManager] Handling bootstrap for remote player ") {
        ParseResult::Parsed((player_id, net_player_id, squad_id)) => ParseResult::Parsed(
            FGGameMessage::HandleRemotePlayer { player_id, net_player_id, squad_id },
        ),
        ParseResult::NeedMoreLines => ParseResult::NeedMoreLines,
        ParseResult::Unreachable => ParseResult::Unreachable,
        ParseResult::NoMatch => ParseResult::NoMatch,
    }
}

/// Outcome of the local-player bootstrap rule.
pub open spec fn handle_local_player_eval(s: Seq<char>) -> ParseResult<GameMessageView> {
    match bootstrap_fields(s, "[ClientGameManager] Handling bootstrap for local player "@) {
        BootstrapOutcome::NoCapture => ParseResult::NoMatch,
        BootstrapOutcome::Fatal => ParseResult::Unreachable,
        BootstrapOutcome::Fields { player_id, net_player_id, squad_id } => ParseResult::Parsed(
            GameMessageView::HandleLocalPlayer { player_id, net_player_id, squad_id },
        ),
    }
}

/// `Handling bootstrap for local player ...` carries the local player's
/// ids.
pub fn handle_local_player(input: &str) -> (r: ParseResult<FGGameMessage>)
    ensures
        r@ == handle_local_player_eval(input@),
{
    match bootstrap_capture(input, "[ClientGameManager] Handling bootstrap for local player ") {
        ParseResult::Parsed((player_id, net_player_id, squad_id)) => ParseResult::Parsed(
            FGGameMessage::HandleLocalPlayer { player_id, net_player_id, squad_id },
        ),
        ParseResult::NeedMoreLines => ParseResult::NeedMoreLines,
        ParseResult::Unreachable => ParseResult::Unreachable,
        ParseResult::NoMatch => ParseResult::NoMatch,
    }
}

// ---------------------------------------------------------------------------
// Spectator target
// ---------------------------------------------------------------------------

/// Outcome of the spectator-target rule: a non-empty target name, a
/// platform in parentheses, a party region of digits and spaces, then squad
/// and player ids. The target name is free text, so the platform opens at
/// the rightmost ` (` before the closing `) with Party ID: `. The party
/// region reads with its spaces dropped, and an all-space region means the
/// party id is absent.
pub open spec fn append_spectator_target_eval(s: Seq<char>) -> ParseResult<GameMessageView> {
    let gate = "[CameraDirector] Adding Spectator target "@;
    if !contains_seq(s, gate) {
        ParseResult::NoMatch
    } else {
        let a = capture_start(s, gate);
        if !contains_from(s, ") with Party ID: "@, a) {
            ParseResult::NoMatch
        } else {
            let j = first_match_from(s, ") with Party ID: "@, a);
            if !contains_in(s, " ("@, a + 1, j) {
                ParseResult::NoMatch
            } else {
                let i1 = last_match_in(s, " ("@, a + 1, j);
                let p = i1 + 2;
                if p >= j {
                    ParseResult::NoMatch
                } else {
                    let q = j + ") with Party ID: "@.len();
                    if !contains_from(s, " Squad ID: "@, q) {
                        ParseResult::NoMatch
                    } else {
                        let k = first_match_from(s, " Squad ID: "@, q);
                        let f = k + " Squad ID: "@.len();
                        let g = scan_end(s, CharClass::Digit, f);
                        if k == q || !(forall|m: int|
                            q <= m < k ==> in_class(CharClass::DigitSpace, s[m])) || g == f
                            || !matches_at(s, " and playerID: "@, g) {
                            ParseResult::NoMatch
                        } else {
                            let h = g + " and playerID: "@.len();
                            let m2 = scan_end(s, CharClass::Digit, h);
                            if m2 == h {
                                ParseResult::NoMatch
                            } else {
                                let party = strip_spaces(s.subrange(q, k));
                                if digit_run_fits(s, h, m2) && digit_run_fits(s, f, g) && (
                                party.len() == 0 || digits_value(party) <= isize::MAX) {
                                    ParseResult::Parsed(
                                        GameMessageView::AppendSpectatorTarget {
                                            player_id: digits_value(s.subrange(h, m2)),
                                            squad_id: Option::Some(
                                                digits_value(s.subrange(f, g)),
                                            ),
                                            party_id: if party.len() == 0 {
                                                Option::None
                                            } else {
                                                Option::Some(digits_value(party))
                                            },
                                            platform: platform_of(s.subrange(p, j)),
                                        },
                                    )
                                } else {
                                    ParseResult::Unreachable
                                }
                            }
                        }
                    }
                }
            }
        }
    }
}

/// `Adding Spectator target NAME (platform) with Party ID: p Squad ID: q
/// and playerID: r` registers a spectator target.
pub fn append_spectator_target(input: &str) -> (r: ParseResult<FGGameMessage>)
    ensures
        r@ == append_spectator_target_eval(input@),
{
    let gate = "[CameraDirector] Adding Spectator target ";
    match after_first(input, gate) {
        None => ParseResult::NoMatch,
        Some(a) => {
            let n = input.unicode_len();
            match find_from(input, ") with Party ID: ", a) {
                None => ParseResult::NoMatch,
                Some(j) => {
                    let partylit = ") with Party ID: ";
                    proof {
                        assert(j + partylit@.len() <= n);
                    }
                    if j <= a {
                        proof {
                            assert(!contains_in(input@, " ("@, a as int + 1, j as int));
                        }
                        return ParseResult::NoMatch;
                    }
                    match find_last_in(input, " (", a + 1, j) {
                        None => ParseResult::NoMatch,
                        Some(i1) => {
                            proof {
                                lemma_contains_last_in(input@, " ("@, a as int + 1, j as int);
                                reveal_strlit(" (");
                                assert(i1 + 2 <= n);
                            }
                            let p = i1 + 2;
                            if p >= j {
                                return ParseResult::NoMatch;
                            }
                            let q = j + partylit.unicode_len();
                            match find_from(input, " Squad ID: ", q) {
                                None => ParseResult::NoMatch,
                                Some(k) => {
                                    let squadlit = " Squad ID: ";
                                    proof {
                                        assert(k + squadlit@.len() <= n);
                                    }
                                    let f = k + squadlit.unicode_len();
                                    let g = scan_class(input, CharClass::Digit, f);
                                    let region_end = scan_class(input, CharClass::DigitSpace, q);
                                    let region_ok = region_end >= k;
                                    proof {
                                        if region_end >= k {
                                            assert(forall|m: int|
                                                q <= m < k ==> in_class(
                                                    CharClass::DigitSpace,
                                                    input@[m],
                                                ));
                                        } else {
                                            assert(!in_class(
                                                CharClass::DigitSpace,
                                                input@[region_end as int],
                                            ));
                                        }
                                    }
                                    if k == q || !region_ok || g == f || !match_lit_at(
                                        input,
                                        " and playerID: ",
                                        g,
                                    ) {
                                        return ParseResult::NoMatch;
                                    }
                                    let andlit = " and playerID: ";
                                    proof {
                                        assert(g + andlit@.len() <= n);
                                    }
                                    let h = g + andlit.unicode_len();
                                    let m2 = scan_class(input, CharClass::Digit, h);
                                    if m2 == h {
                                        return ParseResult::NoMatch;
                                    }
                                    let pid = parse_digit_run(input, h, m2);
                                    let sq = parse_digit_run(input, f, g);
                                    proof {
                                        assert(forall|m: int|
                                            q <= m < k ==> crate::text::is_digit_char(input@[m])
                                                || input@[m] == ' ');
                                    }
                                    let party = parse_sep_digit_run(input, q, k, ' ');
                                    let platform = FGPlatform::from_text(
                                        input.substring_char(p, j),
                                    );
                                    match (pid, sq, party) {
                                        (Some(player_id), Some(squad), Some(party_id)) => ParseResult::Parsed(
                                            FGGameMessage::AppendSpectatorTarget {
                                                player_id,
                                                squad_id: Some(squad),
                                                party_id,
                                                platform,
                                            },
                                        ),
                                        _ => ParseResult::Unreachable,
                                    }
                                },
                            }
                        },
                    }
                },
            }
        },
    }
}

} // verus!
