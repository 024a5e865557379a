//! The end-of-episode reward rule. The block has no closing marker: the
//! rule keeps asking for lines while the tail still looks like a reward
//! line, and commits once an out-of-scope line arrives or the tail stops
//! looking like one. The committed block splits into header totals and
//! per-round records.

use vstd::prelude::*;

use crate::assets::round_display_name_spec;
use crate::assets::FGExtraDataAssets;
use crate::assets::FGExtraDataLevelsRoundItem;
use crate::assets::localized_string_round_id;
use crate::common::round_badge_of;
use crate::common::FGRoundBadge;
use crate::dto::default_round_view;
use crate::dto::generate_fg_completed_episode_dto_round;
use crate::dto::opt_int;
use crate::dto::CompletedEpisodeView;
use crate::dto::CompletedRoundView;
use crate::dto::FGCompletedEpisodeDto;
use crate::dto::FGCompletedEpisodeDtoRound;
use crate::messages::FGGameMessage;
use crate::messages::GameMessageView;
use crate::parser::ParseResult;
use crate::rules::capture_start;
use crate::rules::parse_digit_run;
use crate::text::contains_seq;
use crate::text::contains_sub;
use crate::text::digits_value;
use crate::text::int_text_value;
use crate::text::is_int_text;
use crate::text::match_lit_at;
use crate::text::matches_at;
use crate::text::parse_int_range;
use crate::text::scan_class;
use crate::text::scan_end;
use crate::text::split_all_lines;
use crate::text::split_lines_all;
use crate::text::str_eq;
use crate::text::after_first;
use crate::text::CharClass;

verus! {

// ---------------------------------------------------------------------------
// Line classification
// ---------------------------------------------------------------------------

/// Text that closes the block: the next reward-service log, a spectator
/// shot, or an exception.
pub open spec fn oos_text(t: Seq<char>) -> bool {
    contains_seq(t, "[RewardService] Processing claimed rewards"@) || contains_seq(
        t,
        ".TryUseSpectatingPlayersShot"@,
    ) || contains_seq(t, "Exception"@)
}

/// Text that still looks like a reward line: a property, a round header,
/// or the block tag itself.
pub open spec fn valid_log_line(t: Seq<char>) -> bool {
    (contains_seq(t, "> "@) && contains_seq(t, ":"@)) || (contains_seq(t, "[Round"@)
        || contains_seq(t, "]"@)) || contains_seq(t, "CompletedEpisodeDto"@)
}

/// Does `t` close the block?
pub fn oos_line(t: &str) -> (r: bool)
    ensures
        r == oos_text(t@),
{
    contains_sub(t, "[RewardService] Processing claimed rewards") || contains_sub(
        t,
        ".TryUseSpectatingPlayersShot",
    ) || contains_sub(t, "Exception")
}

/// Does `t` still look like a reward line?
pub fn valid_line(t: &str) -> (r: bool)
    ensures
        r == valid_log_line(t@),
{
    (contains_sub(t, "> ") && contains_sub(t, ":")) || (contains_sub(t, "[Round")
        || contains_sub(t, "]")) || contains_sub(t, "CompletedEpisodeDto")
}

// ---------------------------------------------------------------------------
// The need-more-lines heuristics
// ---------------------------------------------------------------------------

/// The smaller of two optional lengths.
pub open spec fn merge_min(a: Option<int>, b: Option<int>) -> Option<int> {
    match (a, b) {
        (Option::None, x) => x,
        (x, Option::None) => x,
        (Option::Some(u), Option::Some(v)) => Option::Some(
            if u <= v {
                u
            } else {
                v
            },
        ),
    }
}

/// The shortest length among the lines that do not look like reward lines.
pub open spec fn min_invalid_len(lines: Seq<Seq<char>>) -> Option<int>
    decreases lines.len(),
{
    if lines.len() == 0 {
        Option::None
    } else {
        merge_min(
            if !valid_log_line(lines[0]) {
                Option::Some(lines[0].len() as int)
            } else {
                Option::None
            },
            min_invalid_len(lines.skip(1)),
        )
    }
}

/// The distance between two lengths.
pub open spec fn len_diff(a: int, b: int) -> int {
    if a >= b {
        a - b
    } else {
        b - a
    }
}

/// The block is incomplete while the last line still looks like a reward
/// line, fewer than eight lines arrived, or the last line's length sits
/// within five characters of the shortest non-reward line seen.
pub open spec fn rewards_needs_more_lines(lines: Seq<Seq<char>>) -> bool {
    if lines.len() == 0 {
        false
    } else {
        let last = lines.last();
        valid_log_line(last) || lines.len() < 8 || (!valid_log_line(last) && (
        match min_invalid_len(lines) {
            Option::Some(m) => len_diff(m, last.len() as int) < 5,
            Option::None => false,
        }))
    }
}

/// Decide the heuristics over the split lines.
pub fn rewards_more(lines: &Vec<String>) -> (r: bool)
    ensures
        r == rewards_needs_more_lines(lines.deep_view()),
{
    let ghost dv = lines.deep_view();
    let ln = lines.len();
    if ln == 0 {
        return false;
    }
    let last_is_valid = valid_line(lines[ln - 1].as_str());
    proof {
        assert(dv[ln - 1] == lines@[ln - 1]@);
        assert(dv.last() == dv[ln - 1]);
    }
    if last_is_valid {
        return true;
    }
    if ln < 8 {
        return true;
    }
    let mut mn: Option<usize> = None;
    let mut i: usize = 0;
    proof {
        assert(dv.skip(0) =~= dv);
    }
    while i < ln
        invariant
            ln == dv.len(),
            lines.deep_view() == dv,
            0 <= i <= ln,
            merge_min(
                match mn {
                    Option::Some(v) => Option::Some(v as int),
                    Option::None => Option::None,
                },
                min_invalid_len(dv.skip(i as int)),
            ) == min_invalid_len(dv),
        decreases ln - i,
    {
        proof {
            assert(dv.skip(i as int)[0] == dv[i as int]);
            assert(dv.skip(i as int).skip(1) =~= dv.skip(i as int + 1));
            assert(lines@[i as int]@ == dv[i as int]);
        }
        if !valid_line(lines[i].as_str()) {
            let l = lines[i].as_str().unicode_len();
            mn = match mn {
                Some(v) => if l <= v {
                    Some(l)
                } else {
                    Some(v)
                },
                None => Some(l),
            };
        }
        i += 1;
    }
    proof {
        assert(dv.skip(ln as int) =~= Seq::<Seq<char>>::empty());
    }
    let last_len = lines[ln - 1].as_str().unicode_len();
    match mn {
        Some(m) => {
            let diff = if m >= last_len {
                m - last_len
            } else {
                last_len - m
            };
            diff < 5
        },
        None => false,
    }
}

// ---------------------------------------------------------------------------
// Captures
// ---------------------------------------------------------------------------

/// The round header's captures: `[Round N | round_id]` gives the order and
/// the round id.
pub open spec fn title_capture(l: Seq<char>) -> Option<(int, Seq<char>)> {
    if !contains_seq(l, "[Round "@) {
        Option::None
    } else {
        let a = capture_start(l, "[Round "@);
        let b = scan_end(l, CharClass::Digit, a);
        if b == a || !matches_at(l, " | "@, b) {
            Option::None
        } else {
            let c = b + 3;
            let d = scan_end(l, CharClass::Ident, c);
            if d == c || !matches_at(l, "]"@, d) {
                Option::None
            } else {
                Option::Some((digits_value(l.subrange(a, b)), l.subrange(c, d)))
            }
        }
    }
}

/// A property line's captures: `> Key: value` gives the key and a possibly
/// empty value.
pub open spec fn prop_capture(l: Seq<char>) -> Option<(Seq<char>, Seq<char>)> {
    if !contains_seq(l, "> "@) {
        Option::None
    } else {
        let a = capture_start(l, "> "@);
        let b = scan_end(l, CharClass::KeyChars, a);
        if b == a || !matches_at(l, ": "@, b) {
            Option::None
        } else {
            let c = b + 2;
            let d = scan_end(l, CharClass::Ident, c);
            Option::Some((l.subrange(a, b), l.subrange(c, d)))
        }
    }
}

/// A required numeric field: its value exactly when the text is an integer
/// the machine can hold.
pub open spec fn field_int(value: Seq<char>) -> Option<int> {
    if is_int_text(value) && isize::MIN <= int_text_value(value) <= isize::MAX {
        Option::Some(int_text_value(value))
    } else {
        Option::None
    }
}

// ---------------------------------------------------------------------------
// The committed block, line by line
// ---------------------------------------------------------------------------

/// The parser's running state over the committed block.
pub struct RewardsAcc {
    pub kudos: Option<int>,
    pub fame: Option<int>,
    pub crowns: Option<int>,
    pub current_crown_shards: Option<int>,
    pub rounds: Seq<CompletedRoundView>,
    pub round_order: int,
    pub temp: CompletedRoundView,
}

/// What one line does to the state.
pub enum RewardsStep {
    Go(RewardsAcc),
    Halt,
    Fail,
}

/// Folding the block's lines either finishes with a state or fails.
pub enum RewardsFold {
    Done(RewardsAcc),
    Fail,
}

/// The state before any line.
pub open spec fn rewards_init() -> RewardsAcc {
    RewardsAcc {
        kudos: Option::None,
        fame: Option::None,
        crowns: Option::None,
        current_crown_shards: Option::None,
        rounds: Seq::empty(),
        round_order: -1,
        temp: default_round_view(),
    }
}

/// One line of the committed block: an out-of-scope line stops the walk, a
/// round header opens a record, a property line fills the header totals or
/// the open record, and anything else passes. A malformed header or
/// property, an unreadable number, or an unknown record key is fatal.
pub open spec fn rewards_line_step(
    acc: RewardsAcc,
    l: Seq<char>,
    levels: Seq<(String, FGExtraDataLevelsRoundItem)>,
    strings: Seq<(String, String)>,
) -> RewardsStep {
    if oos_text(l) {
        RewardsStep::Halt
    } else if contains_seq(l, "["@) && contains_seq(l, "Round "@) && contains_seq(l, "]"@) {
        match title_capture(l) {
            Option::None => RewardsStep::Fail,
            Option::Some((order, rid)) => {
                if order <= isize::MAX {
                    RewardsStep::Go(
                        RewardsAcc {
                            rounds: if acc.round_order != -1 {
                                acc.rounds.push(acc.temp)
                            } else {
                                acc.rounds
                            },
                            round_order: order,
                            temp: CompletedRoundView {
                                round_order: order,
                                round_id_str: rid,
                                round_display_name: round_display_name_spec(
                                    levels,
                                    strings,
                                    rid,
                                ),
                                ..default_round_view()
                            },
                            ..acc
                        },
                    )
                } else {
                    RewardsStep::Fail
                }
            },
        }
    } else if contains_seq(l, "> "@) && contains_seq(l, ": "@) {
        match prop_capture(l) {
            Option::None => RewardsStep::Fail,
            Option::Some((key, value)) => {
                if acc.round_order == -1 {
                    if key == "Kudos"@ {
                        match field_int(value) {
                            Option::Some(v) => RewardsStep::Go(
                                RewardsAcc { kudos: Option::Some(v), ..acc },
                            ),
                            Option::None => RewardsStep::Fail,
                        }
                    } else if key == "Fame"@ {
                        match field_int(value) {
                            Option::Some(v) => RewardsStep::Go(
                                RewardsAcc { fame: Option::Some(v), ..acc },
                            ),
                            Option::None => RewardsStep::Fail,
                        }
                    } else if key == "Crowns"@ {
                        match field_int(value) {
                            Option::Some(v) => RewardsStep::Go(
                                RewardsAcc { crowns: Option::Some(v), ..acc },
                            ),
                            Option::None => RewardsStep::Fail,
                        }
                    } else if key == "CurrentCrownShards"@ {
                        match field_int(value) {
                            Option::Some(v) => RewardsStep::Go(
                                RewardsAcc { current_crown_shards: Option::Some(v), ..acc },
                            ),
                            Option::None => RewardsStep::Fail,
                        }
                    } else {
                        RewardsStep::Go(acc)
                    }
                } else if value.len() == 0 {
                    RewardsStep::Go(acc)
                } else if key == "Qualified"@ {
                    RewardsStep::Go(
                        RewardsAcc {
                            temp: CompletedRoundView { qualified: value == "True"@, ..acc.temp },
                            ..acc
                        },
                    )
                } else if key == "Position"@ {
                    match field_int(value) {
                        Option::Some(v) => RewardsStep::Go(
                            RewardsAcc {
                                temp: CompletedRoundView { position: v, ..acc.temp },
                                ..acc
                            },
                        ),
                        Option::None => RewardsStep::Fail,
                    }
                } else if key == "Team Score"@ {
                    match field_int(value) {
                        Option::Some(v) => RewardsStep::Go(
                            RewardsAcc {
                                temp: CompletedRoundView { team_score: v, ..acc.temp },
                                ..acc
                            },
                        ),
                        Option::None => RewardsStep::Fail,
                    }
                } else if key == "Kudos"@ {
                    match field_int(value) {
                        Option::Some(v) => RewardsStep::Go(
                            RewardsAcc {
                                temp: CompletedRoundView { kudos: v, ..acc.temp },
                                ..acc
                            },
                        ),
                        Option::None => RewardsStep::Fail,
                    }
                } else if key == "Fame"@ {
                    match field_int(value) {
                        Option::Some(v) => RewardsStep::Go(
                            RewardsAcc { temp: CompletedRoundView { fame: v, ..acc.temp }, ..acc },
                        ),
                        Option::None => RewardsStep::Fail,
                    }
                } else if key == "Bonus Tier"@ {
                    match field_int(value) {
                        Option::Some(v) => RewardsStep::Go(
                            RewardsAcc {
                                temp: CompletedRoundView { bonus_tier: v, ..acc.temp },
                                ..acc
                            },
                        ),
                        Option::None => RewardsStep::Fail,
                    }
                } else if key == "Bonus Kudos"@ {
                    match field_int(value) {
                        Option::Some(v) => RewardsStep::Go(
                            RewardsAcc {
                                temp: CompletedRoundView { bonus_kudos: v, ..acc.temp },
                                ..acc
                            },
                        ),
                        Option::None => RewardsStep::Fail,
                    }
                } else if key == "Bonus Fame"@ {
                    match field_int(value) {
                        Option::Some(v) => RewardsStep::Go(
                            RewardsAcc {
                                temp: CompletedRoundView { bonus_fame: v, ..acc.temp },
                                ..acc
                            },
                        ),
                        Option::None => RewardsStep::Fail,
                    }
                } else if key == "BadgeId"@ {
                    RewardsStep::Go(
                        RewardsAcc {
                            temp: CompletedRoundView {
                                badge_id: round_badge_of(value),
                                ..acc.temp
                            },
                            ..acc
                        },
                    )
                } else {
                    RewardsStep::Fail
                }
            },
        }
    } else {
        RewardsStep::Go(acc)
    }
}

/// Walk the block's lines in order.
pub open spec fn rewards_fold(
    acc: RewardsAcc,
    lines: Seq<Seq<char>>,
    levels: Seq<(String, FGExtraDataLevelsRoundItem)>,
    strings: Seq<(String, String)>,
) -> RewardsFold
    decreases lines.len(),
{
    if lines.len() == 0 {
        RewardsFold::Done(acc)
    } else {
        match rewards_line_step(acc, lines[0], levels, strings) {
            RewardsStep::Go(a2) => rewards_fold(a2, lines.skip(1), levels, strings),
            RewardsStep::Halt => RewardsFold::Done(acc),
            RewardsStep::Fail => RewardsFold::Fail,
        }
    }
}

/// Close the walk: whenever a round header was seen, the record it opened
/// joins the list, so the committed block carries exactly one record per
/// header, in input order.
pub open spec fn rewards_finalize(acc: RewardsAcc) -> CompletedEpisodeView {
    CompletedEpisodeView {
        kudos: acc.kudos,
        fame: acc.fame,
        crowns: acc.crowns,
        current_crown_shards: acc.current_crown_shards,
        rounds: if acc.round_order != -1 {
            acc.rounds.push(acc.temp)
        } else {
            acc.rounds
        },
    }
}

/// The committed block's event, or the fatal outcome.
pub open spec fn rewards_commit(
    s: Seq<char>,
    levels: Seq<(String, FGExtraDataLevelsRoundItem)>,
    strings: Seq<(String, String)>,
) -> ParseResult<GameMessageView> {
    match rewards_fold(rewards_init(), split_lines_all(s), levels, strings) {
        RewardsFold::Done(acc) => ParseResult::Parsed(
            GameMessageView::GameLobbyRewards(rewards_finalize(acc)),
        ),
        RewardsFold::Fail => ParseResult::Unreachable,
    }
}

/// Outcome of the reward rule: gated on the block tag, buffering while the
/// heuristics say the block is incomplete, committed otherwise.
pub open spec fn game_lobby_rewards_eval(
    s: Seq<char>,
    levels: Seq<(String, FGExtraDataLevelsRoundItem)>,
    strings: Seq<(String, String)>,
) -> ParseResult<GameMessageView> {
    if !contains_seq(s, " [CompletedEpisodeDto] "@) {
        ParseResult::NoMatch
    } else if !oos_text(s) && rewards_needs_more_lines(split_lines_all(s)) {
        ParseResult::NeedMoreLines
    } else {
        rewards_commit(s, levels, strings)
    }
}

/// Law: a buffer that an out-of-scope line closes commits. Whatever else
/// it holds, the rule answers with the block or the fatal outcome, never
/// with a request for more lines.
pub proof fn lemma_rewards_commits(
    s: Seq<char>,
    levels: Seq<(String, FGExtraDataLevelsRoundItem)>,
    strings: Seq<(String, String)>,
)
    requires
        oos_text(s),
    ensures
        game_lobby_rewards_eval(s, levels, strings) != ParseResult::<
            GameMessageView,
        >::NeedMoreLines,
{
}

// ---------------------------------------------------------------------------
// Executable captures
// ---------------------------------------------------------------------------

/// Capture a round header; `None` when the header is malformed or its
/// order does not fit.
fn title_try(l: &str) -> (r: Option<(isize, String)>)
    ensures
        match r {
            Some((o, rid)) => title_capture(l@) == Option::Some((o as int, rid@)) && o >= 0,
            None => match title_capture(l@) {
                Option::None => true,
                Option::Some((order, _)) => order > isize::MAX,
            },
        },
{
    match after_first(l, "[Round ") {
        None => None,
        Some(a) => {
            let b = scan_class(l, CharClass::Digit, a);
            if b == a || !match_lit_at(l, " | ", b) {
                return None;
            }
            let n = l.unicode_len();
            proof {
                reveal_strlit(" | ");
                assert(b + 3 <= n);
            }
            let c = b + 3;
            let d = scan_class(l, CharClass::Ident, c);
            if d == c || !match_lit_at(l, "]", d) {
                return None;
            }
            proof {
                crate::text::lemma_digits_value_nonneg(l@.subrange(a as int, b as int));
            }
            match parse_digit_run(l, a, b) {
                Some(o) => Some((o, l.substring_char(c, d).to_owned())),
                None => None,
            }
        },
    }
}

/// Capture a property line; the value may be empty.
fn prop_try(l: &str) -> (r: Option<(String, String)>)
    ensures
        match (r, prop_capture(l@)) {
            (Option::None, Option::None) => true,
            (Option::Some((k, v)), Option::Some((ks, vs))) => k@ == ks && v@ == vs,
            _ => false,
        },
{
    match after_first(l, "> ") {
        None => None,
        Some(a) => {
            let b = scan_class(l, CharClass::KeyChars, a);
            if b == a || !match_lit_at(l, ": ", b) {
                return None;
            }
            let n = l.unicode_len();
            proof {
                reveal_strlit(": ");
                assert(b + 2 <= n);
            }
            let c = b + 2;
            let d = scan_class(l, CharClass::Ident, c);
            Some((l.substring_char(a, b).to_owned(), l.substring_char(c, d).to_owned()))
        },
    }
}

/// Parse a required numeric field, as `field_int` says.
fn parse_field(value: &str) -> (r: Option<isize>)
    ensures
        match r {
            Some(v) => field_int(value@) == Option::Some(v as int),
            None => field_int(value@) is None,
        },
{
    let n = value.unicode_len();
    proof {
        assert(value@.subrange(0, n as int) =~= value@);
    }
    parse_int_range(value, 0, n)
}

// ---------------------------------------------------------------------------
// The rule
// ---------------------------------------------------------------------------

/// The running state's view, assembled from the loop's locals.
pub open spec fn acc_of(
    kudos: Option<isize>,
    fame: Option<isize>,
    crowns: Option<isize>,
    shards: Option<isize>,
    rounds: Vec<FGCompletedEpisodeDtoRound>,
    round_order: isize,
    temp: FGCompletedEpisodeDtoRound,
) -> RewardsAcc {
    RewardsAcc {
        kudos: opt_int(kudos),
        fame: opt_int(fame),
        crowns: opt_int(crowns),
        current_crown_shards: opt_int(shards),
        rounds: rounds.deep_view(),
        round_order: round_order as int,
        temp: temp@,
    }
}

/// The `[CompletedEpisodeDto]` block: buffer until the heuristics say the
/// block ended, then split it into the header totals and the per-round
/// records.
pub fn game_lobby_rewards(input: &str, assets: &FGExtraDataAssets) -> (r: ParseResult<
    FGGameMessage,
>)
    ensures
        r@ == game_lobby_rewards_eval(input@, assets.levels_round@, assets.localized_strings@),
{
    let ghost levels = assets.levels_round@;
    let ghost strings = assets.localized_strings@;
    if !contains_sub(input, " [CompletedEpisodeDto] ") {
        return ParseResult::NoMatch;
    }
    let lines = split_all_lines(input);
    let ghost all = split_lines_all(input@);
    let is_oos = oos_line(input);
    if !is_oos && rewards_more(&lines) {
        return ParseResult::NeedMoreLines;
    }
    let mut kudos: Option<isize> = None;
    let mut fame: Option<isize> = None;
    let mut crowns: Option<isize> = None;
    let mut shards: Option<isize> = None;
    let mut rounds: Vec<FGCompletedEpisodeDtoRound> = Vec::new();
    let mut round_order: isize = -1;
    let mut temp = generate_fg_completed_episode_dto_round();
    let ln = lines.len();
    let mut li: usize = 0;
    let mut halted = false;
    proof {
        assert(all.skip(0) =~= all);
        assert(rounds.deep_view() =~= Seq::<CompletedRoundView>::empty());
        assert(acc_of(kudos, fame, crowns, shards, rounds, round_order, temp)
            == rewards_init());
    }
    while li < ln && !halted
        invariant
            ln == all.len(),
            lines.deep_view() == all,
            all == split_lines_all(input@),
            contains_seq(input@, " [CompletedEpisodeDto] "@),
            oos_text(input@) || !rewards_needs_more_lines(all),
            0 <= li <= ln,
            !halted ==> rewards_fold(rewards_init(), all, levels, strings) == rewards_fold(
                acc_of(kudos, fame, crowns, shards, rounds, round_order, temp),
                all.skip(li as int),
                levels,
                strings,
            ),
            halted ==> rewards_fold(rewards_init(), all, levels, strings)
                == RewardsFold::Done(
                acc_of(kudos, fame, crowns, shards, rounds, round_order, temp),
            ),
            levels == assets.levels_round@,
            strings == assets.localized_strings@,
        decreases ln - li + (if halted {
            0int
        } else {
            1int
        }),
    {
        let ghost acc0 = acc_of(kudos, fame, crowns, shards, rounds, round_order, temp);
        proof {
            assert(all.skip(li as int)[0] == all[li as int]);
            assert(all.skip(li as int).skip(1) =~= all.skip(li as int + 1));
            assert(lines@[li as int]@ == all[li as int]);
        }
        let line = lines[li].as_str();
        if oos_line(line) {
            proof {
                assert(rewards_line_step(acc0, all[li as int], levels, strings)
                    == RewardsStep::Halt);
            }
            halted = true;
        } else if contains_sub(line, "[") && contains_sub(line, "Round ") && contains_sub(
            line,
            "]",
        ) {
            match title_try(line) {
                None => {
                    proof {
                        assert(rewards_line_step(acc0, all[li as int], levels, strings)
                            == RewardsStep::Fail);
                    }
                    return ParseResult::Unreachable;
                },
                Some((order, rid)) => {
                    let ghost old_rounds_dv = rounds.deep_view();
                    if round_order != -1 {
                        let ghost tview = temp@;
                        rounds.push(temp);
                        proof {
                            assert(rounds.deep_view() =~= old_rounds_dv.push(tview));
                        }
                        temp = generate_fg_completed_episode_dto_round();
                    } else {
                        temp = generate_fg_completed_episode_dto_round();
                    }
                    let display = localized_string_round_id(assets, rid.as_str());
                    temp.round_order = order;
                    temp.round_display_name = display;
                    temp.round_id_str = rid;
                    round_order = order;
                    proof {
                        assert(rewards_line_step(acc0, all[li as int], levels, strings)
                            == RewardsStep::Go(
                            acc_of(kudos, fame, crowns, shards, rounds, round_order, temp),
                        ));
                    }
                },
            }
        } else if contains_sub(line, "> ") && contains_sub(line, ": ") {
            match prop_try(line) {
                None => {
                    proof {
                        assert(rewards_line_step(acc0, all[li as int], levels, strings)
                            == RewardsStep::Fail);
                    }
                    return ParseResult::Unreachable;
                },
                Some((key, value)) => {
                    if round_order == -1 {
                        if str_eq(key.as_str(), "Kudos") {
                            match parse_field(value.as_str()) {
                                Some(v) => {
                                    kudos = Some(v);
                                },
                                None => {
                                    return ParseResult::Unreachable;
                                },
                            }
                        } else if str_eq(key.as_str(), "Fame") {
                            match parse_field(value.as_str()) {
                                Some(v) => {
                                    fame = Some(v);
                                },
                                None => {
                                    return ParseResult::Unreachable;
                                },
                            }
                        } else if str_eq(key.as_str(), "Crowns") {
                            match parse_field(value.as_str()) {
                                Some(v) => {
                                    crowns = Some(v);
                                },
                                None => {
                                    return ParseResult::Unreachable;
                                },
                            }
                        } else if str_eq(key.as_str(), "CurrentCrownShards") {
                            match parse_field(value.as_str()) {
                                Some(v) => {
                                    shards = Some(v);
                                },
                                None => {
                                    return ParseResult::Unreachable;
                                },
                            }
                        }
                    } else if value.as_str().is_empty() {
                        proof {
                            assert(value@.len() == 0);
                        }
                    } else if str_eq(key.as_str(), "Qualified") {
                        temp.qualified = str_eq(value.as_str(), "True");
                    } else if str_eq(key.as_str(), "Position") {
                        match parse_field(value.as_str()) {
                            Some(v) => {
                                temp.position = v;
                            },
                            None => {
                                return ParseResult::Unreachable;
                            },
                        }
                    } else if str_eq(key.as_str(), "Team Score") {
                        match parse_field(value.as_str()) {
                            Some(v) => {
                                temp.team_score = v;
                            },
                            None => {
                                return ParseResult::Unreachable;
                            },
                        }
                    } else if str_eq(key.as_str(), "Kudos") {
                        match parse_field(value.as_str()) {
                            Some(v) => {
                                temp.kudos = v;
                            },
                            None => {
                                return ParseResult::Unreachable;
                            },
                        }
                    } else if str_eq(key.as_str(), "Fame") {
                        match parse_field(value.as_str()) {
                            Some(v) => {
                                temp.fame = v;
                            },
                            None => {
                                return ParseResult::Unreachable;
                            },
                        }
                    } else if str_eq(key.as_str(), "Bonus Tier") {
                        match parse_field(value.as_str()) {
                            Some(v) => {
                                temp.bonus_tier = v;
                            },
                            None => {
                                return ParseResult::Unreachable;
                            },
                        }
                    } else if str_eq(key.as_str(), "Bonus Kudos") {
                        match parse_field(value.as_str()) {
                            Some(v) => {
                                temp.bonus_kudos = v;
                            },
                            None => {
                                return ParseResult::Unreachable;
                            },
                        }
                    } else if str_eq(key.as_str(), "Bonus Fame") {
                        match parse_field(value.as_str()) {
                            Some(v) => {
                                temp.bonus_fame = v;
                            },
                            None => {
                                return ParseResult::Unreachable;
                            },
                        }
                    } else if str_eq(key.as_str(), "BadgeId") {
                        temp.badge_id = FGRoundBadge::from_text(value.as_str());
                    } else {
                        return ParseResult::Unreachable;
                    }
                    proof {
                        assert(rewards_line_step(acc0, all[li as int], levels, strings)
                            == RewardsStep::Go(
                            acc_of(kudos, fame, crowns, shards, rounds, round_order, temp),
                        ));
                    }
                },
            }
        } else {
            proof {
                assert(rewards_line_step(acc0, all[li as int], levels, strings)
                    == RewardsStep::Go(acc0));
            }
        }
        if !halted {
            li += 1;
        }
    }
    proof {
        if !halted {
            assert(all.skip(ln as int) =~= Seq::<Seq<char>>::empty());
        }
        assert(rewards_fold(rewards_init(), all, levels, strings) == RewardsFold::Done(
            acc_of(kudos, fame, crowns, shards, rounds, round_order, temp),
        ));
    }
    let ghost final_acc = acc_of(kudos, fame, crowns, shards, rounds, round_order, temp);
    if round_order != -1 {
        let ghost old_rounds_dv = rounds.deep_view();
        let ghost tview = temp@;
        rounds.push(temp);
        proof {
            assert(rounds.deep_view() =~= old_rounds_dv.push(tview));
        }
        let dto = FGCompletedEpisodeDto {
            kudos,
            fame,
            crowns,
            current_crown_shards: shards,
            rounds,
        };
        proof {
            assert(dto@ == rewards_finalize(final_acc));
        }
        ParseResult::Parsed(FGGameMessage::GameLobbyRewards(dto))
    } else {
        let dto = FGCompletedEpisodeDto {
            kudos,
            fame,
            crowns,
            current_crown_shards: shards,
            rounds,
        };
        proof {
            assert(dto@ == rewards_finalize(final_acc));
        }
        ParseResult::Parsed(FGGameMessage::GameLobbyRewards(dto))
    }
}

} // verus!
