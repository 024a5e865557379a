//! The single-line pattern rules. Each rule gates on a characteristic
//! substring and then captures its fields from the text after the leftmost
//! occurrence of its anchor literal; its specification states the outcome for
//! every input.

use vstd::prelude::*;

use crate::messages::FGGameMessage;
use crate::messages::GameMessageView;
use crate::parser::ParseResult;
use crate::state::client_readiness_of;
use crate::state::game_session_state_of;
use crate::state::game_state_of;
use crate::state::FGClientReadinessState;
use crate::state::FGGameSessionState;
use crate::state::FGGameState;
use crate::text::contains_seq;
use crate::text::contains_sub;
use crate::text::digits_value;
use crate::text::first_match_idx;
use crate::text::is_digit_char;
use crate::text::is_int_text;
use crate::text::int_text_value;
use crate::text::lemma_digits_value_nonneg;
use crate::text::match_lit_at;
use crate::text::matches_at;
use crate::text::parse_int_range;
use crate::text::scan_class;
use crate::text::scan_end;
use crate::text::after_first;
use crate::text::CharClass;

verus! {

/// Where the text after the leftmost occurrence of `gate` begins.
pub open spec fn capture_start(s: Seq<char>, gate: Seq<char>) -> int {
    first_match_idx(s, gate) + gate.len()
}

/// The value of the digit run `s[a..b]`, interpreted for a field the rules
/// must parse: the run's value when it fits a machine integer.
pub open spec fn digit_run_fits(s: Seq<char>, a: int, b: int) -> bool {
    digits_value(s.subrange(a, b)) <= isize::MAX
}

// ---------------------------------------------------------------------------
// Literal-only rules
// ---------------------------------------------------------------------------

/// Outcome of the begin-matchmaking rule.
pub open spec fn begin_matchmaking_eval(s: Seq<char>) -> ParseResult<GameMessageView> {
    if contains_seq(s, "[Matchmaking] Begin matchmaking"@) {
        ParseResult::Parsed(GameMessageView::BeginMatchmaking)
    } else {
        ParseResult::NoMatch
    }
}

/// `[Matchmaking] Begin matchmaking` opens a matchmaking attempt.
pub fn begin_matchmaking(input: &str) -> (r: ParseResult<FGGameMessage>)
    ensures
        r@ == begin_matchmaking_eval(input@),
{
    if contains_sub(input, "[Matchmaking] Begin matchmaking") {
        ParseResult::Parsed(FGGameMessage::BeginMatchmaking)
    } else {
        ParseResult::NoMatch
    }
}

/// Outcome of the leave-match rule.
pub open spec fn leave_match_eval(s: Seq<char>) -> ParseResult<GameMessageView> {
    if contains_seq(s, "[LeaveMatchPopupManager] Calling CloseScreen()"@) {
        ParseResult::Parsed(GameMessageView::LeaveMatch)
    } else {
        ParseResult::NoMatch
    }
}

/// The leave-match popup closed; the 3D session is being cleared.
pub fn leave_match(input: &str) -> (r: ParseResult<FGGameMessage>)
    ensures
        r@ == leave_match_eval(input@),
{
    if contains_sub(input, "[LeaveMatchPopupManager] Calling CloseScreen()") {
        ParseResult::Parsed(FGGameMessage::LeaveMatch)
    } else {
        ParseResult::NoMatch
    }
}

/// Outcome of the round-over rule.
pub open spec fn round_over_eval(s: Seq<char>) -> ParseResult<GameMessageView> {
    if contains_seq(s, "[ClientGameManager] Server notifying that the round is over."@) {
        ParseResult::Parsed(GameMessageView::RoundOver)
    } else {
        ParseResult::NoMatch
    }
}

/// The server declared the round over.
pub fn round_over(input: &str) -> (r: ParseResult<FGGameMessage>)
    ensures
        r@ == round_over_eval(input@),
{
    if contains_sub(input, "[ClientGameManager] Server notifying that the round is over.") {
        ParseResult::Parsed(FGGameMessage::RoundOver)
    } else {
        ParseResult::NoMatch
    }
}

/// Outcome of the start-loading-level boundary rule.
pub open spec fn server_message_start_loading_level_eval(s: Seq<char>) -> ParseResult<
    GameMessageView,
> {
    if contains_seq(s, "GameMessageServerStartLoadingLevel received"@) {
        ParseResult::Parsed(GameMessageView::ServerMessageStartLoadingLevel)
    } else {
        ParseResult::NoMatch
    }
}

pub fn server_message_start_loading_level(input: &str) -> (r: ParseResult<FGGameMessage>)
    ensures
        r@ == server_message_start_loading_level_eval(input@),
{
    if contains_sub(input, "GameMessageServerStartLoadingLevel received") {
        ParseResult::Parsed(FGGameMessage::ServerMessageStartLoadingLevel)
    } else {
        ParseResult::NoMatch
    }
}

/// Outcome of the ready-round-response boundary rule.
pub open spec fn server_message_ready_round_response_eval(s: Seq<char>) -> ParseResult<
    GameMessageView,
> {
    if contains_seq(s, "GameMessageServerReadyRoundResponse received"@) {
        ParseResult::Parsed(GameMessageView::ServerMessageReadyRoundResponse)
    } else {
        ParseResult::NoMatch
    }
}

pub fn server_message_ready_round_response(input: &str) -> (r: ParseResult<FGGameMessage>)
    ensures
        r@ == server_message_ready_round_response_eval(input@),
{
    if contains_sub(input, "GameMessageServerReadyRoundResponse received") {
        ParseResult::Parsed(FGGameMessage::ServerMessageReadyRoundResponse)
    } else {
        ParseResult::NoMatch
    }
}

/// Outcome of the round-results boundary rule.
pub open spec fn server_message_round_results_eval(s: Seq<char>) -> ParseResult<
    GameMessageView,
> {
    if contains_seq(s, "GameMessageServerRoundResults received"@) {
        ParseResult::Parsed(GameMessageView::ServerMessageRoundResults)
    } else {
        ParseResult::NoMatch
    }
}

pub fn server_message_round_results(input: &str) -> (r: ParseResult<FGGameMessage>)
    ensures
        r@ == server_message_round_results_eval(input@),
{
    if contains_sub(input, "GameMessageServerRoundResults received") {
        ParseResult::Parsed(FGGameMessage::ServerMessageRoundResults)
    } else {
        ParseResult::NoMatch
    }
}

/// Outcome of the end-round boundary rule.
pub open spec fn server_message_end_round_eval(s: Seq<char>) -> ParseResult<GameMessageView> {
    if contains_seq(s, "GameMessageServerEndRound received"@) {
        ParseResult::Parsed(GameMessageView::ServerMessageEndRound)
    } else {
        ParseResult::NoMatch
    }
}

pub fn server_message_end_round(input: &str) -> (r: ParseResult<FGGameMessage>)
    ensures
        r@ == server_message_end_round_eval(input@),
{
    if contains_sub(input, "GameMessageServerEndRound received") {
        ParseResult::Parsed(FGGameMessage::ServerMessageEndRound)
    } else {
        ParseResult::NoMatch
    }
}

// ---------------------------------------------------------------------------
// Game state changed
// ---------------------------------------------------------------------------

/// Outcome of the game-state-changed rule: both state names are captured
/// after the anchor; a missing second name is the fatal case, as the rule
/// requires the replacement target.
pub open spec fn game_state_changed_eval(s: Seq<char>) -> ParseResult<GameMessageView> {
    let gate = "[GameStateMachine] Replacing "@;
    if !(contains_seq(s, gate) && contains_seq(s, " with "@)) {
        ParseResult::NoMatch
    } else {
        let a = capture_start(s, gate);
        let b = scan_end(s, CharClass::IdentDot, a);
        if b == a || !matches_at(s, " with "@, b) {
            ParseResult::NoMatch
        } else {
            let c = b + " with "@.len();
            let d = scan_end(s, CharClass::IdentDot, c);
            if d == c {
                ParseResult::Unreachable
            } else {
                ParseResult::Parsed(
                    GameMessageView::GameStateChanged {
                        before: Option::Some(game_state_of(s.subrange(a, b))),
                        after: game_state_of(s.subrange(c, d)),
                    },
                )
            }
        }
    }
}

/// `[GameStateMachine] Replacing X with Y` announces a state transition.
pub fn game_state_changed(input: &str) -> (r: ParseResult<FGGameMessage>)
    ensures
        r@ == game_state_changed_eval(input@),
{
    let gate = "[GameStateMachine] Replacing ";
    let with = " with ";
    let start = after_first(input, gate);
    let has_with = contains_sub(input, with);
    match start {
        None => ParseResult::NoMatch,
        Some(a) => {
            if !has_with {
                return ParseResult::NoMatch;
            }
            let b = scan_class(input, CharClass::IdentDot, a);
            if b == a || !match_lit_at(input, with, b) {
                return ParseResult::NoMatch;
            }
            let n = input.unicode_len();
            proof {
                assert(b + with@.len() <= n);
            }
            let c = b + with.unicode_len();
            let d = scan_class(input, CharClass::IdentDot, c);
            if d == c {
                return ParseResult::Unreachable;
            }
            let before = FGGameState::from_text(input.substring_char(a, b));
            let after = FGGameState::from_text(input.substring_char(c, d));
            ParseResult::Parsed(FGGameMessage::GameStateChanged { before: Some(before), after })
        },
    }
}

// ---------------------------------------------------------------------------
// Server connected
// ---------------------------------------------------------------------------

/// Outcome of the server-connected rule: the address is captured after the
/// anchor, the port after the following colon, and a malformed tail makes
/// the rule pass.
pub open spec fn server_connected_eval(s: Seq<char>) -> ParseResult<GameMessageView> {
    let gate = "[StateConnectToGame] InitiateNetworkConnectRequest with server IP: "@;
    if !contains_seq(s, gate) {
        ParseResult::NoMatch
    } else {
        let a = capture_start(s, gate);
        let b = scan_end(s, CharClass::DigitDot, a);
        if b == a || b == s.len() || s[b] != ':' {
            ParseResult::NoMatch
        } else {
            let c = scan_end(s, CharClass::Digit, b + 1);
            ParseResult::Parsed(
                GameMessageView::ServerConnected {
                    ip_addr: s.subrange(a, b),
                    port: if c == b + 1 {
                        Option::None
                    } else {
                        Option::Some(s.subrange(b + 1, c))
                    },
                },
            )
        }
    }
}

/// `InitiateNetworkConnectRequest with server IP: a.b.c.d:port` records the
/// lobby connection.
pub fn server_connected(input: &str) -> (r: ParseResult<FGGameMessage>)
    ensures
        r@ == server_connected_eval(input@),
{
    let gate = "[StateConnectToGame] InitiateNetworkConnectRequest with server IP: ";
    match after_first(input, gate) {
        None => ParseResult::NoMatch,
        Some(a) => {
            let n = input.unicode_len();
            let b = scan_class(input, CharClass::DigitDot, a);
            if b == a || b == n || input.get_char(b) != ':' {
                return ParseResult::NoMatch;
            }
            let c = scan_class(input, CharClass::Digit, b + 1);
            let ip_addr = input.substring_char(a, b).to_owned();
            let port = if c == b + 1 {
                None
            } else {
                Some(input.substring_char(b + 1, c).to_owned())
            };
            ParseResult::Parsed(FGGameMessage::ServerConnected { ip_addr, port })
        },
    }
}

// ---------------------------------------------------------------------------
// Create local player
// ---------------------------------------------------------------------------

/// Outcome of the create-local-player rule: the id is the digit run after
/// the anchor; an id too large for the machine is the fatal case.
pub open spec fn create_local_player_eval(s: Seq<char>) -> ParseResult<GameMessageView> {
    let gate = "[CreateLocalPlayerInstances] Added new player as Participant"@;
    let anchor = "[CreateLocalPlayerInstances] Added new player as Participant, player ID = "@;
    if !contains_seq(s, gate) {
        ParseResult::NoMatch
    } else if !contains_seq(s, anchor) {
        ParseResult::NoMatch
    } else {
        let a = capture_start(s, anchor);
        let b = scan_end(s, CharClass::Digit, a);
        if b == a {
            ParseResult::NoMatch
        } else if digit_run_fits(s, a, b) {
            ParseResult::Parsed(
                GameMessageView::CreateLocalPlayer(digits_value(s.subrange(a, b))),
            )
        } else {
            ParseResult::Unreachable
        }
    }
}

/// `Added new player as Participant, player ID = n` creates the local
/// player.
pub fn create_local_player(input: &str) -> (r: ParseResult<FGGameMessage>)
    ensures
        r@ == create_local_player_eval(input@),
{
    let gate = "[CreateLocalPlayerInstances] Added new player as Participant";
    let anchor = "[CreateLocalPlayerInstances] Added new player as Participant, player ID = ";
    if !contains_sub(input, gate) {
        return ParseResult::NoMatch;
    }
    match after_first(input, anchor) {
        None => ParseResult::NoMatch,
        Some(a) => {
            let b = scan_class(input, CharClass::Digit, a);
            if b == a {
                return ParseResult::NoMatch;
            }
            match parse_digit_run(input, a, b) {
                Some(v) => ParseResult::Parsed(FGGameMessage::CreateLocalPlayer(v)),
                None => ParseResult::Unreachable,
            }
        },
    }
}

// ---------------------------------------------------------------------------
// Set client readiness
// ---------------------------------------------------------------------------

/// Outcome of the readiness rule: the state name sits between single quotes
/// after the anchor. A malformed tail is the fatal case: a gate hit without
/// a capture here is a broken structural assumption.
pub open spec fn set_client_readiness_eval(s: Seq<char>) -> ParseResult<GameMessageView> {
    let anchor = "[ClientGameManager] Setting this client as readiness state '"@;
    let gate = "[ClientGameManager] Setting this client as readiness state"@;
    if !contains_seq(s, gate) {
        ParseResult::NoMatch
    } else if !contains_seq(s, anchor) {
        ParseResult::Unreachable
    } else {
        let a = capture_start(s, anchor);
        let b = scan_end(s, CharClass::AlphaNum, a);
        if b == a || b == s.len() || s[b] != '\'' {
            ParseResult::Unreachable
        } else {
            ParseResult::Parsed(
                GameMessageView::SetClientReadiness(client_readiness_of(s.subrange(a, b))),
            )
        }
    }
}

/// `Setting this client as readiness state 'X'` advances the readiness
/// handshake.
pub fn set_client_readiness(input: &str) -> (r: ParseResult<FGGameMessage>)
    ensures
        r@ == set_client_readiness_eval(input@),
{
    let gate = "[ClientGameManager] Setting this client as readiness state";
    let anchor = "[ClientGameManager] Setting this client as readiness state '";
    if !contains_sub(input, gate) {
        return ParseResult::NoMatch;
    }
    match after_first(input, anchor) {
        None => ParseResult::Unreachable,
        Some(a) => {
            let n = input.unicode_len();
            let b = scan_class(input, CharClass::AlphaNum, a);
            if b == a || b == n || input.get_char(b) != '\'' {
                return ParseResult::Unreachable;
            }
            let state = FGClientReadinessState::from_text(input.substring_char(a, b));
            ParseResult::Parsed(FGGameMessage::SetClientReadiness(state))
        },
    }
}

// ---------------------------------------------------------------------------
// Loaded round
// ---------------------------------------------------------------------------

/// Outcome of the loaded-round rule: the level id runs from the anchor to
/// the closing full stop.
pub open spec fn loaded_round_eval(
    s: Seq<char>,
    levels: Seq<(String, crate::assets::FGExtraDataLevelsRoundItem)>,
    strings: Seq<(String, String)>,
) -> ParseResult<GameMessageView> {
    let gate = "[StateGameLoading] Finished loading game level,"@;
    let anchor = "[StateGameLoading] Finished loading game level, assumed to be "@;
    if !contains_seq(s, gate) {
        ParseResult::NoMatch
    } else if !contains_seq(s, anchor) {
        ParseResult::NoMatch
    } else {
        let a = capture_start(s, anchor);
        let b = scan_end(s, CharClass::Ident, a);
        if b == a || b == s.len() || s[b] != '.' {
            ParseResult::NoMatch
        } else {
            ParseResult::Parsed(
                GameMessageView::LoadedRound(
                    crate::common::round_info_of(levels, strings, s.subrange(a, b)),
                ),
            )
        }
    }
}

/// `Finished loading game level, assumed to be X.` reports the loaded
/// round.
pub fn loaded_round(input: &str, assets: &crate::assets::FGExtraDataAssets) -> (r: ParseResult<
    FGGameMessage,
>)
    ensures
        r@ == loaded_round_eval(input@, assets.levels_round@, assets.localized_strings@),
{
    let gate = "[StateGameLoading] Finished loading game level,";
    let anchor = "[StateGameLoading] Finished loading game level, assumed to be ";
    if !contains_sub(input, gate) {
        return ParseResult::NoMatch;
    }
    match after_first(input, anchor) {
        None => ParseResult::NoMatch,
        Some(a) => {
            let n = input.unicode_len();
            let b = scan_class(input, CharClass::Ident, a);
            if b == a || b == n || input.get_char(b) != '.' {
                return ParseResult::NoMatch;
            }
            let info = crate::common::FGRoundInfo::from_str_id(
                input.substring_char(a, b),
                assets,
            );
            ParseResult::Parsed(FGGameMessage::LoadedRound(info))
        },
    }
}

// ---------------------------------------------------------------------------
// Request local player
// ---------------------------------------------------------------------------

/// Outcome of the request-local-player rule.
pub open spec fn request_local_player_eval(s: Seq<char>) -> ParseResult<GameMessageView> {
    let gate = "Requesting spawn of local player, ID="@;
    if !contains_seq(s, gate) {
        ParseResult::NoMatch
    } else {
        let a = capture_start(s, gate);
        let b = scan_end(s, CharClass::Digit, a);
        if b == a {
            ParseResult::NoMatch
        } else if digit_run_fits(s, a, b) {
            ParseResult::Parsed(
                GameMessageView::RequestLocalPlayer(digits_value(s.subrange(a, b))),
            )
        } else {
            ParseResult::Unreachable
        }
    }
}

/// `Requesting spawn of local player, ID=n` asks for the local spawn.
pub fn request_local_player(input: &str) -> (r: ParseResult<FGGameMessage>)
    ensures
        r@ == request_local_player_eval(input@),
{
    let gate = "Requesting spawn of local player, ID=";
    match after_first(input, gate) {
        None => ParseResult::NoMatch,
        Some(a) => {
            let b = scan_class(input, CharClass::Digit, a);
            if b == a {
                return ParseResult::NoMatch;
            }
            match parse_digit_run(input, a, b) {
                Some(v) => ParseResult::Parsed(FGGameMessage::RequestLocalPlayer(v)),
                None => ParseResult::Unreachable,
            }
        },
    }
}

// ---------------------------------------------------------------------------
// Player spawned
// ---------------------------------------------------------------------------

/// Outcome of the player-spawned rule: a net id and a player id, closed by
/// the literal ` was spawned`.
pub open spec fn player_spawned_eval(s: Seq<char>) -> ParseResult<GameMessageView> {
    let gate = "[StateGameLoading] OnPlayerSpawned - NetID"@;
    let anchor = "[StateGameLoading] OnPlayerSpawned - NetID="@;
    if !contains_seq(s, gate) {
        ParseResult::NoMatch
    } else if !contains_seq(s, anchor) {
        ParseResult::NoMatch
    } else {
        let a = capture_start(s, anchor);
        let b = scan_end(s, CharClass::Digit, a);
        if b == a || !matches_at(s, " ID="@, b) {
            ParseResult::NoMatch
        } else {
            let c = b + " ID="@.len();
            let d = scan_end(s, CharClass::Digit, c);
            if d == c || !matches_at(s, " was spawned"@, d) {
                ParseResult::NoMatch
            } else if digit_run_fits(s, a, b) && digit_run_fits(s, c, d) {
                ParseResult::Parsed(
                    GameMessageView::PlayerSpawned {
                        player_id: digits_value(s.subrange(c, d)),
                        net_player_id: digits_value(s.subrange(a, b)),
                    },
                )
            } else {
                ParseResult::Unreachable
            }
        }
    }
}

/// `OnPlayerSpawned - NetID=n ID=m was spawned` reports a spawned player
/// object.
pub fn player_spawned(input: &str) -> (r: ParseResult<FGGameMessage>)
    ensures
        r@ == player_spawned_eval(input@),
{
    let gate = "[StateGameLoading] OnPlayerSpawned - NetID";
    let anchor = "[StateGameLoading] OnPlayerSpawned - NetID=";
    if !contains_sub(input, gate) {
        return ParseResult::NoMatch;
    }
    match after_first(input, anchor) {
        None => ParseResult::NoMatch,
        Some(a) => {
            let b = scan_class(input, CharClass::Digit, a);
            let idlit = " ID=";
            if b == a || !match_lit_at(input, idlit, b) {
                return ParseResult::NoMatch;
            }
            let n = input.unicode_len();
            proof {
                assert(b + idlit@.len() <= n);
            }
            let c = b + idlit.unicode_len();
            let d = scan_class(input, CharClass::Digit, c);
            if d == c || !match_lit_at(input, " was spawned", d) {
                return ParseResult::NoMatch;
            }
            let net = parse_digit_run(input, a, b);
            let pid = parse_digit_run(input, c, d);
            match (net, pid) {
                (Some(net_player_id), Some(player_id)) => ParseResult::Parsed(
                    FGGameMessage::PlayerSpawned { player_id, net_player_id },
                ),
                _ => ParseResult::Unreachable,
            }
        },
    }
}

// ---------------------------------------------------------------------------
// Local squad and party ids
// ---------------------------------------------------------------------------

/// Outcome of the local-squad-id rule: the digit run is optional; an absent
/// run clears the id.
pub open spec fn set_local_squad_id_eval(s: Seq<char>) -> ParseResult<GameMessageView> {
    let gate = "[CameraDirector] Set Local Squad ID: "@;
    if !contains_seq(s, gate) {
        ParseResult::NoMatch
    } else {
        let a = capture_start(s, gate);
        let b = scan_end(s, CharClass::Digit, a);
        if b == a {
            ParseResult::Parsed(GameMessageView::SetLocalSquadId(Option::None))
        } else if digit_run_fits(s, a, b) {
            ParseResult::Parsed(
                GameMessageView::SetLocalSquadId(Option::Some(digits_value(s.subrange(a, b)))),
            )
        } else {
            ParseResult::Unreachable
        }
    }
}

/// `[CameraDirector] Set Local Squad ID: n` sets or clears the squad id.
pub fn set_local_squad_id(input: &str) -> (r: ParseResult<FGGameMessage>)
    ensures
        r@ == set_local_squad_id_eval(input@),
{
    let gate = "[CameraDirector] Set Local Squad ID: ";
    match after_first(input, gate) {
        None => ParseResult::NoMatch,
        Some(a) => {
            let b = scan_class(input, CharClass::Digit, a);
            if b == a {
                return ParseResult::Parsed(FGGameMessage::SetLocalSquadId(None));
            }
            match parse_digit_run(input, a, b) {
                Some(v) => ParseResult::Parsed(FGGameMessage::SetLocalSquadId(Some(v))),
                None => ParseResult::Unreachable,
            }
        },
    }
}

/// Outcome of the local-party-id rule, the squad rule's twin.
pub open spec fn set_local_party_id_eval(s: Seq<char>) -> ParseResult<GameMessageView> {
    let gate = "[CameraDirector] Set Local Party ID: "@;
    if !contains_seq(s, gate) {
        ParseResult::NoMatch
    } else {
        let a = capture_start(s, gate);
        let b = scan_end(s, CharClass::Digit, a);
        if b == a {
            ParseResult::Parsed(GameMessageView::SetLocalPartyId(Option::None))
        } else if digit_run_fits(s, a, b) {
            ParseResult::Parsed(
                GameMessageView::SetLocalPartyId(Option::Some(digits_value(s.subrange(a, b)))),
            )
        } else {
            ParseResult::Unreachable
        }
    }
}

/// `[CameraDirector] Set Local Party ID: n` sets or clears the party id.
pub fn set_local_party_id(input: &str) -> (r: ParseResult<FGGameMessage>)
    ensures
        r@ == set_local_party_id_eval(input@),
{
    let gate = "[CameraDirector] Set Local Party ID: ";
    match after_first(input, gate) {
        None => ParseResult::NoMatch,
        Some(a) => {
            let b = scan_class(input, CharClass::Digit, a);
            if b == a {
                return ParseResult::Parsed(FGGameMessage::SetLocalPartyId(None));
            }
            match parse_digit_run(input, a, b) {
                Some(v) => ParseResult::Parsed(FGGameMessage::SetLocalPartyId(Some(v))),
                None => ParseResult::Unreachable,
            }
        },
    }
}

// ---------------------------------------------------------------------------
// Game session state
// ---------------------------------------------------------------------------

/// Outcome of the session-state rule: both states are captured around
/// ` to `; a missing target state is the fatal case.
pub open spec fn game_session_state_eval(s: Seq<char>) -> ParseResult<GameMessageView> {
    let gate = "[GameSession] Changing state from "@;
    if !contains_seq(s, gate) {
        ParseResult::NoMatch
    } else {
        let a = capture_start(s, gate);
        let b = scan_end(s, CharClass::Ident, a);
        if b == a || !matches_at(s, " to "@, b) {
            ParseResult::NoMatch
        } else {
            let c = b + " to "@.len();
            let d = scan_end(s, CharClass::Ident, c);
            if d == c {
                ParseResult::Unreachable
            } else {
                ParseResult::Parsed(
                    GameMessageView::GameSessionState {
                        after: game_session_state_of(s.subrange(c, d)),
                        before: Option::Some(game_session_state_of(s.subrange(a, b))),
                    },
                )
            }
        }
    }
}

/// `[GameSession] Changing state from X to Y` reports the session state.
pub fn game_session_state(input: &str) -> (r: ParseResult<FGGameMessage>)
    ensures
        r@ == game_session_state_eval(input@),
{
    let gate = "[GameSession] Changing state from ";
    let tolit = " to ";
    match after_first(input, gate) {
        None => ParseResult::NoMatch,
        Some(a) => {
            let b = scan_class(input, CharClass::Ident, a);
            if b == a || !match_lit_at(input, tolit, b) {
                return ParseResult::NoMatch;
            }
            let n = input.unicode_len();
            proof {
                assert(b + tolit@.len() <= n);
            }
            let c = b + tolit.unicode_len();
            let d = scan_class(input, CharClass::Ident, c);
            if d == c {
                return ParseResult::Unreachable;
            }
            let before = FGGameSessionState::from_text(input.substring_char(a, b));
            let after = FGGameSessionState::from_text(input.substring_char(c, d));
            ParseResult::Parsed(FGGameMessage::GameSessionState { after, before: Some(before) })
        },
    }
}

// ---------------------------------------------------------------------------
// Objective count, player score, unspawn, progress
// ---------------------------------------------------------------------------

/// Outcome of the objective-count rule.
pub open spec fn set_num_players_achieving_objectsive_eval(s: Seq<char>) -> ParseResult<
    GameMessageView,
> {
    let gate = "[ClientGameSession] NumPlayersAchievingObjective="@;
    if !contains_seq(s, gate) {
        ParseResult::NoMatch
    } else {
        let a = capture_start(s, gate);
        let b = scan_end(s, CharClass::Digit, a);
        if b == a {
            ParseResult::NoMatch
        } else if digit_run_fits(s, a, b) {
            ParseResult::Parsed(
                GameMessageView::SetNumPlayersAchievingObjective(
                    digits_value(s.subrange(a, b)),
                ),
            )
        } else {
            ParseResult::Unreachable
        }
    }
}

/// `NumPlayersAchievingObjective=n` counts the players achieving the round
/// objective.
pub fn set_num_players_achieving_objectsive(input: &str) -> (r: ParseResult<FGGameMessage>)
    ensures
        r@ == set_num_players_achieving_objectsive_eval(input@),
{
    let gate = "[ClientGameSession] NumPlayersAchievingObjective=";
    match after_first(input, gate) {
        None => ParseResult::NoMatch,
        Some(a) => {
            let b = scan_class(input, CharClass::Digit, a);
            if b == a {
                return ParseResult::NoMatch;
            }
            match parse_digit_run(input, a, b) {
                Some(v) => ParseResult::Parsed(FGGameMessage::SetNumPlayersAchievingObjective(v)),
                None => ParseResult::Unreachable,
            }
        },
    }
}

/// Outcome of the player-score rule: both digit runs may be absent in the
/// text, and an absent run is the fatal case, since both ids are required.
pub open spec fn set_player_score_eval(s: Seq<char>) -> ParseResult<GameMessageView> {
    if !(contains_seq(s, "Player "@) && contains_seq(s, " score = "@)) {
        ParseResult::NoMatch
    } else {
        let a = capture_start(s, "Player "@);
        let b = scan_end(s, CharClass::Digit, a);
        if !matches_at(s, " score = "@, b) {
            ParseResult::NoMatch
        } else {
            let c = b + " score = "@.len();
            let d = scan_end(s, CharClass::Digit, c);
            if b == a || d == c {
                ParseResult::Unreachable
            } else if digit_run_fits(s, a, b) && digit_run_fits(s, c, d) {
                ParseResult::Parsed(
                    GameMessageView::SetPlayerScore {
                        net_player_id: digits_value(s.subrange(a, b)),
                        score: digits_value(s.subrange(c, d)),
                    },
                )
            } else {
                ParseResult::Unreachable
            }
        }
    }
}

/// `Player n score = m` carries a score update.
pub fn set_player_score(input: &str) -> (r: ParseResult<FGGameMessage>)
    ensures
        r@ == set_player_score_eval(input@),
{
    let scorelit = " score = ";
    let has_score = contains_sub(input, scorelit);
    match after_first(input, "Player ") {
        None => ParseResult::NoMatch,
        Some(a) => {
            if !has_score {
                return ParseResult::NoMatch;
            }
            let b = scan_class(input, CharClass::Digit, a);
            if !match_lit_at(input, scorelit, b) {
                return ParseResult::NoMatch;
            }
            let n = input.unicode_len();
            proof {
                assert(b + scorelit@.len() <= n);
            }
            let c = b + scorelit.unicode_len();
            let d = scan_class(input, CharClass::Digit, c);
            if b == a || d == c {
                return ParseResult::Unreachable;
            }
            let net = parse_digit_run(input, a, b);
            let score = parse_digit_run(input, c, d);
            match (net, score) {
                (Some(net_player_id), Some(score)) => ParseResult::Parsed(
                    FGGameMessage::SetPlayerScore { net_player_id, score },
                ),
                _ => ParseResult::Unreachable,
            }
        },
    }
}

/// Outcome of the unspawn rule.
pub open spec fn handle_unspawn_eval(s: Seq<char>) -> ParseResult<GameMessageView> {
    let gate = "[ClientGameManager] Handling unspawn for player "@;
    if !contains_seq(s, gate) {
        ParseResult::NoMatch
    } else {
        let a = capture_start(s, gate);
        let b = scan_end(s, CharClass::Digit, a);
        if b == a {
            ParseResult::NoMatch
        } else if digit_run_fits(s, a, b) {
            ParseResult::Parsed(GameMessageView::HandleUnspawn(digits_value(s.subrange(a, b))))
        } else {
            ParseResult::Unreachable
        }
    }
}

/// `Handling unspawn for player n` reports a despawned player object.
pub fn handle_unspawn(input: &str) -> (r: ParseResult<FGGameMessage>)
    ensures
        r@ == handle_unspawn_eval(input@),
{
    let gate = "[ClientGameManager] Handling unspawn for player ";
    match after_first(input, gate) {
        None => ParseResult::NoMatch,
        Some(a) => {
            let b = scan_class(input, CharClass::Digit, a);
            if b == a {
                return ParseResult::NoMatch;
            }
            match parse_digit_run(input, a, b) {
                Some(v) => ParseResult::Parsed(FGGameMessage::HandleUnspawn(v)),
                None => ParseResult::Unreachable,
            }
        },
    }
}

/// Outcome of the player-progress rule: a player id and a `True`/`False`
/// flag.
pub open spec fn set_player_progress_eval(s: Seq<char>) -> ParseResult<GameMessageView> {
    let gate = "ClientGameManager::HandleServerPlayerProgress PlayerId="@;
    if !contains_seq(s, gate) {
        ParseResult::NoMatch
    } else {
        let a = capture_start(s, gate);
        let b = scan_end(s, CharClass::Digit, a);
        if b == a || !matches_at(s, " is succeeded="@, b) {
            ParseResult::NoMatch
        } else {
            let c = b + " is succeeded="@.len();
            if !matches_at(s, "True"@, c) && !matches_at(s, "False"@, c) {
                ParseResult::NoMatch
            } else if digit_run_fits(s, a, b) {
                ParseResult::Parsed(
                    GameMessageView::SetPlayerProgress {
                        player_id: digits_value(s.subrange(a, b)),
                        is_succeeded: matches_at(s, "True"@, c),
                    },
                )
            } else {
                ParseResult::Unreachable
            }
        }
    }
}

/// `HandleServerPlayerProgress PlayerId=n is succeeded=True` sets a
/// player's succeeded flag.
pub fn set_player_progress(input: &str) -> (r: ParseResult<FGGameMessage>)
    ensures
        r@ == set_player_progress_eval(input@),
{
    let gate = "ClientGameManager::HandleServerPlayerProgress PlayerId=";
    let slit = " is succeeded=";
    match after_first(input, gate) {
        None => ParseResult::NoMatch,
        Some(a) => {
            let b = scan_class(input, CharClass::Digit, a);
            if b == a || !match_lit_at(input, slit, b) {
                return ParseResult::NoMatch;
            }
            let n = input.unicode_len();
            proof {
                assert(b + slit@.len() <= n);
            }
            let c = b + slit.unicode_len();
            let is_true = match_lit_at(input, "True", c);
            let is_false = match_lit_at(input, "False", c);
            if !is_true && !is_false {
                return ParseResult::NoMatch;
            }
            match parse_digit_run(input, a, b) {
                Some(player_id) => ParseResult::Parsed(
                    FGGameMessage::SetPlayerProgress { player_id, is_succeeded: is_true },
                ),
                None => ParseResult::Unreachable,
            }
        },
    }
}

// ---------------------------------------------------------------------------
// Creative round loader
// ---------------------------------------------------------------------------

/// Outcome of the creative-round rule: the share code runs to a colon that
/// a version number follows.
pub open spec fn creative_round_loader_eval(s: Seq<char>) -> ParseResult<GameMessageView> {
    let gate = "[RoundLoader] Load UGC via share code: "@;
    if !contains_seq(s, gate) {
        ParseResult::NoMatch
    } else {
        let a = capture_start(s, gate);
        let b = scan_end(s, CharClass::DigitDash, a);
        if b == a || b == s.len() || s[b] != ':' {
            ParseResult::NoMatch
        } else {
            let c = scan_end(s, CharClass::Digit, b + 1);
            if c == b + 1 {
                ParseResult::NoMatch
            } else {
                ParseResult::Parsed(GameMessageView::CreativeRoundLoader(s.subrange(a, b)))
            }
        }
    }
}

/// `Load UGC via share code: code:version` reports a loading creative
/// round.
pub fn creative_round_loader(input: &str) -> (r: ParseResult<FGGameMessage>)
    ensures
        r@ == creative_round_loader_eval(input@),
{
    let gate = "[RoundLoader] Load UGC via share code: ";
    match after_first(input, gate) {
        None => ParseResult::NoMatch,
        Some(a) => {
            let n = input.unicode_len();
            let b = scan_class(input, CharClass::DigitDash, a);
            if b == a || b == n || input.get_char(b) != ':' {
                return ParseResult::NoMatch;
            }
            let c = scan_class(input, CharClass::Digit, b + 1);
            if c == b + 1 {
                return ParseResult::NoMatch;
            }
            let code = input.substring_char(a, b).to_owned();
            ParseResult::Parsed(FGGameMessage::CreativeRoundLoader(code))
        },
    }
}

/// Parse a scanned digit run; `None` exactly when its value does not fit.
pub fn parse_digit_run(s: &str, a: usize, b: usize) -> (r: Option<isize>)
    requires
        a < b <= s@.len(),
        forall|k: int| a <= k < b ==> is_digit_char(s@[k]),
    ensures
        match r {
            Some(v) => digit_run_fits(s@, a as int, b as int) && v as int == digits_value(
                s@.subrange(a as int, b as int),
            ),
            None => !digit_run_fits(s@, a as int, b as int),
        },
{
    let ghost t = s@.subrange(a as int, b as int);
    proof {
        assert(forall|k: int| 0 <= k < t.len() ==> is_digit_char(t[k]));
        assert(is_int_text(t));
        assert(int_text_value(t) == digits_value(t));
        lemma_digits_value_nonneg(t);
    }
    match parse_int_range(s, a, b) {
        Some(v) => Some(v),
        None => None,
    }
}

} // verus!
