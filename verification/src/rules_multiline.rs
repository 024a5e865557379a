//! The multi-line rules other than the reward table: the matchmaking status
//! message, the successful-join pair, and the networking metrics dump. Each
//! asks for more lines until its closing marker arrives.

use vstd::prelude::*;

use crate::assets::FGExtraDataAssets;
use crate::assets::FGExtraDataShowsItem;
use crate::common::game_mode_of;
use crate::common::FGGameMode;
use crate::messages::FGGameMessage;
use crate::messages::FGMatchmakingMessage;
use crate::messages::GameMessageView;
use crate::messages::MatchmakingMessageView;
use crate::parser::ParseResult;
use crate::rules::capture_start;
use crate::text::contains_seq;
use crate::text::contains_sub;
use crate::text::digits_value;
use crate::text::int_text_value;
use crate::text::is_int_text;
use crate::text::match_lit_at;
use crate::text::matches_at;
use crate::text::parse_int_range;
use crate::text::parse_sep_digit_run;
use crate::text::scan_class;
use crate::text::scan_end;
use crate::text::split_all_lines;
use crate::text::split_lines_all;
use crate::text::str_eq;
use crate::text::strip_char;
use crate::text::after_first;
use crate::text::CharClass;

verus! {

// ---------------------------------------------------------------------------
// Successfully joined
// ---------------------------------------------------------------------------

/// Outcome of the successful-join rule: the show line opens the block, the
/// session line closes it.
pub open spec fn successfully_joined_eval(
    s: Seq<char>,
    shows: Seq<(String, FGExtraDataShowsItem)>,
    strings: Seq<(String, String)>,
) -> ParseResult<GameMessageView> {
    let gate = "[HandleSuccessfulLogin] Selected show is "@;
    let session_gate = "[HandleSuccessfulLogin] Session: "@;
    if !contains_seq(s, gate) {
        ParseResult::NoMatch
    } else if !contains_seq(s, session_gate) {
        ParseResult::NeedMoreLines
    } else {
        let a = capture_start(s, gate);
        let b = scan_end(s, CharClass::Word, a);
        if b == a {
            ParseResult::NoMatch
        } else {
            let c = capture_start(s, session_gate);
            let d = scan_end(s, CharClass::Ident, c);
            ParseResult::Parsed(
                GameMessageView::SuccessfullyJoined {
                    game_mode: game_mode_of(shows, strings, s.subrange(a, b)),
                    session_text: if d == c {
                        Option::None
                    } else {
                        Option::Some(s.subrange(c, d))
                    },
                },
            )
        }
    }
}

/// `Selected show is X` then `Session: Y` reports the joined lobby.
pub fn successfully_joined(input: &str, assets: &FGExtraDataAssets) -> (r: ParseResult<
    FGGameMessage,
>)
    ensures
        r@ == successfully_joined_eval(input@, assets.shows@, assets.localized_strings@),
{
    let gate = "[HandleSuccessfulLogin] Selected show is ";
    let session_gate = "[HandleSuccessfulLogin] Session: ";
    let show_start = after_first(input, gate);
    let session_start = after_first(input, session_gate);
    match show_start {
        None => ParseResult::NoMatch,
        Some(a) => {
            match session_start {
                None => ParseResult::NeedMoreLines,
                Some(c) => {
                    let b = scan_class(input, CharClass::Word, a);
                    if b == a {
                        return ParseResult::NoMatch;
                    }
                    let d = scan_class(input, CharClass::Ident, c);
                    let game_mode = FGGameMode::from_show_id(input.substring_char(a, b), assets);
                    let session_text = if d == c {
                        None
                    } else {
                        Some(input.substring_char(c, d).to_owned())
                    };
                    ParseResult::Parsed(
                        FGGameMessage::SuccessfullyJoined { game_mode, session_text },
                    )
                },
            }
        },
    }
}

// ---------------------------------------------------------------------------
// Network metrics
// ---------------------------------------------------------------------------

/// Outcome of the metrics rule: the dump opens with its header and closes
/// with the round-trip line; the latency reads with thousands separators
/// removed and falls back to `-1` when it cannot be read.
pub open spec fn network_metrics_eval(s: Seq<char>) -> ParseResult<GameMessageView> {
    let gate = "[FG_UnityInternetNetworkManager] Networking Metrics after"@;
    let rtt = "Network - RTT: "@;
    if !contains_seq(s, gate) {
        ParseResult::NoMatch
    } else if !contains_seq(s, rtt) {
        ParseResult::NeedMoreLines
    } else {
        let a = capture_start(s, rtt);
        let b = scan_end(s, CharClass::DigitComma, a);
        if b == a || !matches_at(s, "ms"@, b) {
            ParseResult::Unreachable
        } else {
            let t = strip_char(s.subrange(a, b), ',');
            let latency: int = if t.len() > 0 && digits_value(t) <= isize::MAX {
                digits_value(t)
            } else {
                -1
            };
            ParseResult::Parsed(GameMessageView::NetworkMetrics { latency })
        }
    }
}

/// `Networking Metrics after ...` then `Network - RTT: nms` carries the
/// latency.
pub fn network_metrics(input: &str) -> (r: ParseResult<FGGameMessage>)
    ensures
        r@ == network_metrics_eval(input@),
{
    let gate = "[FG_UnityInternetNetworkManager] Networking Metrics after";
    let rtt = "Network - RTT: ";
    if !contains_sub(input, gate) {
        return ParseResult::NoMatch;
    }
    match after_first(input, rtt) {
        None => ParseResult::NeedMoreLines,
        Some(a) => {
            let b = scan_class(input, CharClass::DigitComma, a);
            if b == a || !match_lit_at(input, "ms", b) {
                return ParseResult::Unreachable;
            }
            proof {
                assert(forall|k: int|
                    a <= k < b ==> crate::text::is_digit_char(input@[k]) || input@[k] == ',');
            }
            let latency = match parse_sep_digit_run(input, a, b, ',') {
                Some(Some(v)) => v,
                Some(None) => -1,
                None => -1,
            };
            ParseResult::Parsed(FGGameMessage::NetworkMetrics { latency })
        },
    }
}

// ---------------------------------------------------------------------------
// Matchmaking status message
// ---------------------------------------------------------------------------

/// A quoted key/value pair occurs in `l` at `i`: a quote, a non-empty key,
/// `": "`, an optional opening quote, then a non-empty value.
pub open spec fn kv_match_at(l: Seq<char>, i: int) -> bool {
    0 <= i < l.len() && l[i] == '"' && {
        let k2 = scan_end(l, CharClass::IdentDot, i + 1);
        k2 > i + 1 && matches_at(l, "\": "@, k2) && {
            let v2 = scan_end(l, CharClass::IdentDot, kv_value_start(l, i));
            v2 > kv_value_start(l, i)
        }
    }
}

/// Where the value of the pair at `i` begins, skipping one opening quote.
pub open spec fn kv_value_start(l: Seq<char>, i: int) -> int {
    let k2 = scan_end(l, CharClass::IdentDot, i + 1);
    let p = k2 + "\": "@.len();
    if p < l.len() && l[p] == '"' {
        p + 1
    } else {
        p
    }
}

/// The key of the pair at `i`.
pub open spec fn kv_key(l: Seq<char>, i: int) -> Seq<char> {
    l.subrange(i + 1, scan_end(l, CharClass::IdentDot, i + 1))
}

/// The value of the pair at `i`.
pub open spec fn kv_value(l: Seq<char>, i: int) -> Seq<char> {
    l.subrange(kv_value_start(l, i), scan_end(l, CharClass::IdentDot, kv_value_start(l, i)))
}

/// `i` is the leftmost key/value pair of `l`.
pub open spec fn is_first_kv(l: Seq<char>, i: int) -> bool {
    kv_match_at(l, i) && (forall|j: int| 0 <= j < i ==> !kv_match_at(l, j))
}

/// The leftmost key/value pair of `l`; meaningful when one exists.
pub open spec fn first_kv(l: Seq<char>) -> int {
    choose|i: int| is_first_kv(l, i)
}

proof fn lemma_exists_first_kv_from(l: Seq<char>, i: int)
    requires
        0 <= i,
        exists|j: int| i <= j && kv_match_at(l, j),
        forall|j: int| 0 <= j < i ==> !kv_match_at(l, j),
    ensures
        exists|j: int| is_first_kv(l, j),
    decreases l.len() - i,
{
    if kv_match_at(l, i) {
        assert(is_first_kv(l, i));
    } else {
        let w = choose|j: int| i <= j && kv_match_at(l, j);
        assert(i + 1 <= w && kv_match_at(l, w));
        lemma_exists_first_kv_from(l, i + 1);
    }
}

pub proof fn lemma_first_kv(l: Seq<char>)
    requires
        exists|i: int| kv_match_at(l, i),
    ensures
        is_first_kv(l, first_kv(l)),
{
    let w = choose|i: int| kv_match_at(l, i);
    assert(0 <= w && kv_match_at(l, w));
    lemma_exists_first_kv_from(l, 0);
}

/// What one status line decides: `None` to keep scanning, or the rule's
/// final outcome.
pub open spec fn mm_line_action(l: Seq<char>) -> Option<ParseResult<GameMessageView>> {
    if !(exists|i: int| kv_match_at(l, i)) {
        Option::None
    } else {
        let i = first_kv(l);
        let key = kv_key(l, i);
        let value = kv_value(l, i);
        if key == "name"@ {
            if value == "Play"@ {
                Option::Some(
                    ParseResult::Parsed(
                        GameMessageView::MatchmakingMessageReceived(MatchmakingMessageView::Play),
                    ),
                )
            } else if value == "Error"@ {
                Option::Some(ParseResult::NoMatch)
            } else {
                Option::None
            }
        } else if key == "queuedPlayers"@ {
            if value == "null"@ {
                Option::None
            } else if is_int_text(value) && isize::MIN <= int_text_value(value) <= isize::MAX {
                Option::Some(
                    ParseResult::Parsed(
                        GameMessageView::MatchmakingMessageReceived(
                            MatchmakingMessageView::Queued {
                                queued_players: int_text_value(value),
                            },
                        ),
                    ),
                )
            } else {
                Option::None
            }
        } else if key == "state"@ {
            if value == "Connecting"@ {
                Option::Some(
                    ParseResult::Parsed(
                        GameMessageView::MatchmakingMessageReceived(
                            MatchmakingMessageView::Connecting,
                        ),
                    ),
                )
            } else if value == "QueueFull"@ {
                Option::Some(
                    ParseResult::Parsed(
                        GameMessageView::MatchmakingMessageReceived(
                            MatchmakingMessageView::QueueFull,
                        ),
                    ),
                )
            } else if value == "Waiting"@ {
                Option::Some(
                    ParseResult::Parsed(
                        GameMessageView::MatchmakingMessageReceived(
                            MatchmakingMessageView::Waiting,
                        ),
                    ),
                )
            } else if value == "SessionAssignment"@ {
                Option::Some(
                    ParseResult::Parsed(
                        GameMessageView::MatchmakingMessageReceived(
                            MatchmakingMessageView::SessionAssignment,
                        ),
                    ),
                )
            } else {
                Option::None
            }
        } else {
            Option::None
        }
    }
}

/// Scan the status lines in order; the first decisive line wins, and a
/// block where none decides is the fatal case.
pub open spec fn mm_scan(lines: Seq<Seq<char>>) -> ParseResult<GameMessageView>
    decreases lines.len(),
{
    if lines.len() == 0 {
        ParseResult::Unreachable
    } else {
        match mm_line_action(lines[0]) {
            Option::Some(r) => r,
            Option::None => mm_scan(lines.skip(1)),
        }
    }
}

/// Outcome of the matchmaking-status rule: the block opens with the status
/// header and closes once a `"state": ` line arrives; the lines then decide
/// the message.
pub open spec fn matchmaking_message_received_eval(s: Seq<char>) -> ParseResult<
    GameMessageView,
> {
    if !contains_seq(s, "[FNMMSClientRemoteService] Status message received:"@) {
        ParseResult::NoMatch
    } else if !contains_seq(s, "\"state\": "@) {
        ParseResult::NeedMoreLines
    } else {
        mm_scan(split_lines_all(s))
    }
}

/// Probe for a key/value pair at `i`.
fn kv_try_at(l: &str, i: usize) -> (r: bool)
    requires
        i < l@.len(),
    ensures
        r == kv_match_at(l@, i as int),
{
    let n = l.unicode_len();
    if l.get_char(i) != '"' {
        return false;
    }
    let k2 = scan_class(l, CharClass::IdentDot, i + 1);
    if k2 == i + 1 || !match_lit_at(l, "\": ", k2) {
        return false;
    }
    proof {
        reveal_strlit("\": ");
        assert(k2 + 3 <= n);
    }
    let p = k2 + 3;
    proof {
        assert(kv_value_start(l@, i as int) == if p < n && l@[p as int] == '"' {
            p + 1
        } else {
            p as int
        });
    }
    let vstart = if p < n && l.get_char(p) == '"' {
        p + 1
    } else {
        p
    };
    let v2 = scan_class(l, CharClass::IdentDot, vstart);
    v2 > vstart
}

/// Act on one status line, as `mm_line_action` says.
fn mm_try_line(l: &str) -> (r: Option<ParseResult<FGGameMessage>>)
    ensures
        match (r, mm_line_action(l@)) {
            (Option::None, Option::None) => true,
            (Option::Some(x), Option::Some(y)) => x@ == y,
            _ => false,
        },
{
    let n = l.unicode_len();
    let mut i: usize = 0;
    while i < n
        invariant
            n == l@.len(),
            0 <= i <= n,
            forall|j: int| 0 <= j < i ==> !kv_match_at(l@, j),
        decreases n - i,
    {
        if kv_try_at(l, i) {
            proof {
                assert(is_first_kv(l@, i as int));
                lemma_first_kv(l@);
                assert(first_kv(l@) == i as int);
            }
            let k2 = scan_class(l, CharClass::IdentDot, i + 1);
            proof {
                reveal_strlit("\": ");
                assert(k2 + 3 <= n);
            }
            let p = k2 + 3;
            let vstart = if p < n && l.get_char(p) == '"' {
                p + 1
            } else {
                p
            };
            let v2 = scan_class(l, CharClass::IdentDot, vstart);
            let key = l.substring_char(i + 1, k2);
            let value = l.substring_char(vstart, v2);
            if str_eq(key, "name") {
                if str_eq(value, "Play") {
                    return Some(
                        ParseResult::Parsed(
                            FGGameMessage::MatchmakingMessageReceived(FGMatchmakingMessage::Play),
                        ),
                    );
                } else if str_eq(value, "Error") {
                    return Some(ParseResult::NoMatch);
                } else {
                    return None;
                }
            } else if str_eq(key, "queuedPlayers") {
                if str_eq(value, "null") {
                    return None;
                }
                let vn = value.unicode_len();
                match parse_int_range(value, 0, vn) {
                    Some(queued_players) => {
                        proof {
                            assert(value@.subrange(0, vn as int) =~= value@);
                        }
                        return Some(
                            ParseResult::Parsed(
                                FGGameMessage::MatchmakingMessageReceived(
                                    FGMatchmakingMessage::Queued { queued_players },
                                ),
                            ),
                        );
                    },
                    None => {
                        proof {
                            assert(value@.subrange(0, vn as int) =~= value@);
                        }
                        return None;
                    },
                }
            } else if str_eq(key, "state") {
                if str_eq(value, "Connecting") {
                    return Some(
                        ParseResult::Parsed(
                            FGGameMessage::MatchmakingMessageReceived(
                                FGMatchmakingMessage::Connecting,
                            ),
                        ),
                    );
                } else if str_eq(value, "QueueFull") {
                    return Some(
                        ParseResult::Parsed(
                            FGGameMessage::MatchmakingMessageReceived(
                                FGMatchmakingMessage::QueueFull,
                            ),
                        ),
                    );
                } else if str_eq(value, "Waiting") {
                    return Some(
                        ParseResult::Parsed(
                            FGGameMessage::MatchmakingMessageReceived(
                                FGMatchmakingMessage::Waiting,
                            ),
                        ),
                    );
                } else if str_eq(value, "SessionAssignment") {
                    return Some(
                        ParseResult::Parsed(
                            FGGameMessage::MatchmakingMessageReceived(
                                FGMatchmakingMessage::SessionAssignment,
                            ),
                        ),
                    );
                } else {
                    return None;
                }
            } else {
                return None;
            }
        }
        i += 1;
    }
    None
}

/// `Status message received:` opens the block; the `"state": ` line closes
/// it and the key/value lines decide the message.
pub fn matchmaking_message_received(input: &str) -> (r: ParseResult<FGGameMessage>)
    ensures
        r@ == matchmaking_message_received_eval(input@),
{
    if !contains_sub(input, "[FNMMSClientRemoteService] Status message received:") {
        return ParseResult::NoMatch;
    }
    if !contains_sub(input, "\"state\": ") {
        return ParseResult::NeedMoreLines;
    }
    let lines = split_all_lines(input);
    let ghost all = split_lines_all(input@);
    let ln = lines.len();
    let mut li: usize = 0;
    proof {
        assert(all.skip(0) =~= all);
    }
    while li < ln
        invariant
            ln == all.len(),
            lines.deep_view() == all,
            all == split_lines_all(input@),
            contains_seq(input@, "[FNMMSClientRemoteService] Status message received:"@),
            contains_seq(input@, "\"state\": "@),
            0 <= li <= ln,
            mm_scan(all) == mm_scan(all.skip(li as int)),
        decreases ln - li,
    {
        proof {
            assert(all.skip(li as int)[0] == all[li as int]);
            assert(all.skip(li as int).skip(1) =~= all.skip(li as int + 1));
            assert(lines@[li as int]@ == all[li as int]);
        }
        match mm_try_line(lines[li].as_str()) {
            Some(out) => {
                return out;
            },
            None => {},
        }
        li += 1;
    }
    proof {
        assert(all.skip(ln as int) =~= Seq::<Seq<char>>::empty());
    }
    ParseResult::Unreachable
}

} // verus!
