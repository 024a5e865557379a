//! The rule catalogue: the fixed list of rules in evaluation order, one
//! dispatcher over it, and the laws the catalogue obeys.

use vstd::prelude::*;

use crate::assets::FGExtraDataAssets;
use crate::messages::FGGameMessage;
use crate::messages::GameMessageView;
use crate::parser::ParseResult;
use crate::rules;
use crate::rules_bootstrap;
use crate::rules_multiline;
use crate::rules_rewards;

verus! {

/// One rule of the catalogue.
#[derive(Clone, Copy, Debug, PartialEq, Eq, Hash)]
pub enum RuleId {
    GameStateChanged,
    BeginMatchmaking,
    MatchmakingMessageReceived,
    ServerConnected,
    CreateLocalPlayer,
    SuccessfullyJoined,
    NetworkMetrics,
    SetClientReadiness,
    LoadedRound,
    RequestLocalPlayer,
    HandleRemotePlayer,
    HandleLocalPlayer,
    AppendSpectatorTarget,
    PlayerSpawned,
    SetLocalSquadId,
    SetLocalPartyId,
    GameSessionState,
    SetNumPlayersAchievingObjective,
    SetPlayerScore,
    HandleUnspawn,
    SetPlayerProgress,
    GameLobbyRewards,
    CreativeRoundLoader,
    LeaveMatch,
    RoundOver,
    ServerMessageStartLoadingLevel,
    ServerMessageReadyRoundResponse,
    ServerMessageRoundResults,
    ServerMessageEndRound,
}

/// What a rule answers on an input, given the reference tables. Rules are
/// pure: the answer is a function of the input text and the tables alone.
pub open spec fn rule_eval(rid: RuleId, s: Seq<char>, assets: FGExtraDataAssets) -> ParseResult<
    GameMessageView,
> {
    match rid {
        RuleId::GameStateChanged => rules::game_state_changed_eval(s),
        RuleId::BeginMatchmaking => rules::begin_matchmaking_eval(s),
        RuleId::MatchmakingMessageReceived => rules_multiline::matchmaking_message_received_eval(
            s,
        ),
        RuleId::ServerConnected => rules::server_connected_eval(s),
        RuleId::CreateLocalPlayer => rules::create_local_player_eval(s),
        RuleId::SuccessfullyJoined => rules_multiline::successfully_joined_eval(
            s,
            assets.shows@,
            assets.localized_strings@,
        ),
        RuleId::NetworkMetrics => rules_multiline::network_metrics_eval(s),
        RuleId::SetClientReadiness => rules::set_client_readiness_eval(s),
        RuleId::LoadedRound => rules::loaded_round_eval(
            s,
            assets.levels_round@,
            assets.localized_strings@,
        ),
        RuleId::RequestLocalPlayer => rules::request_local_player_eval(s),
        RuleId::HandleRemotePlayer => rules_bootstrap::handle_remote_player_eval(s),
        RuleId::HandleLocalPlayer => rules_bootstrap::handle_local_player_eval(s),
        RuleId::AppendSpectatorTarget => rules_bootstrap::append_spectator_target_eval(s),
        RuleId::PlayerSpawned => rules::player_spawned_eval(s),
        RuleId::SetLocalSquadId => rules::set_local_squad_id_eval(s),
        RuleId::SetLocalPartyId => rules::set_local_party_id_eval(s),
        RuleId::GameSessionState => rules::game_session_state_eval(s),
        RuleId::SetNumPlayersAchievingObjective => rules::set_num_players_achieving_objectsive_eval(
            s,
        ),
        RuleId::SetPlayerScore => rules::set_player_score_eval(s),
        RuleId::HandleUnspawn => rules::handle_unspawn_eval(s),
        RuleId::SetPlayerProgress => rules::set_player_progress_eval(s),
        RuleId::GameLobbyRewards => rules_rewards::game_lobby_rewards_eval(
            s,
            assets.levels_round@,
            assets.localized_strings@,
        ),
        RuleId::CreativeRoundLoader => rules::creative_round_loader_eval(s),
        RuleId::LeaveMatch => rules::leave_match_eval(s),
        RuleId::RoundOver => rules::round_over_eval(s),
        RuleId::ServerMessageStartLoadingLevel => rules::server_message_start_loading_level_eval(
            s,
        ),
        RuleId::ServerMessageReadyRoundResponse => rules::server_message_ready_round_response_eval(
            s,
        ),
        RuleId::ServerMessageRoundResults => rules::server_message_round_results_eval(s),
        RuleId::ServerMessageEndRound => rules::server_message_end_round_eval(s),
    }
}

/// Evaluate one rule on an input.
pub fn apply_rule(rid: RuleId, input: &str, assets: &FGExtraDataAssets) -> (r: ParseResult<
    FGGameMessage,
>)
    ensures
        r@ == rule_eval(rid, input@, *assets),
{
    match rid {
        RuleId::GameStateChanged => rules::game_state_changed(input),
        RuleId::BeginMatchmaking => rules::begin_matchmaking(input),
        RuleId::MatchmakingMessageReceived => rules_multiline::matchmaking_message_received(input),
        RuleId::ServerConnected => rules::server_connected(input),
        RuleId::CreateLocalPlayer => rules::create_local_player(input),
        RuleId::SuccessfullyJoined => rules_multiline::successfully_joined(input, assets),
        RuleId::NetworkMetrics => rules_multiline::network_metrics(input),
        RuleId::SetClientReadiness => rules::set_client_readiness(input),
        RuleId::LoadedRound => rules::loaded_round(input, assets),
        RuleId::RequestLocalPlayer => rules::request_local_player(input),
        RuleId::HandleRemotePlayer => rules_bootstrap::handle_remote_player(input),
        RuleId::HandleLocalPlayer => rules_bootstrap::handle_local_player(input),
        RuleId::AppendSpectatorTarget => rules_bootstrap::append_spectator_target(input),
        RuleId::PlayerSpawned => rules::player_spawned(input),
        RuleId::SetLocalSquadId => rules::set_local_squad_id(input),
        RuleId::SetLocalPartyId => rules::set_local_party_id(input),
        RuleId::GameSessionState => rules::game_session_state(input),
        RuleId::SetNumPlayersAchievingObjective => rules::set_num_players_achieving_objectsive(
            input,
        ),
        RuleId::SetPlayerScore => rules::set_player_score(input),
        RuleId::HandleUnspawn => rules::handle_unspawn(input),
        RuleId::SetPlayerProgress => rules::set_player_progress(input),
        RuleId::GameLobbyRewards => rules_rewards::game_lobby_rewards(input, assets),
        RuleId::CreativeRoundLoader => rules::creative_round_loader(input),
        RuleId::LeaveMatch => rules::leave_match(input),
        RuleId::RoundOver => rules::round_over(input),
        RuleId::ServerMessageStartLoadingLevel => rules::server_message_start_loading_level(input),
        RuleId::ServerMessageReadyRoundResponse => rules::server_message_ready_round_response(
            input,
        ),
        RuleId::ServerMessageRoundResults => rules::server_message_round_results(input),
        RuleId::ServerMessageEndRound => rules::server_message_end_round(input),
    }
}

/// The catalogue's fixed evaluation order.
pub open spec fn rule_order() -> Seq<RuleId> {
    seq![
        RuleId::GameStateChanged,
        RuleId::BeginMatchmaking,
        RuleId::MatchmakingMessageReceived,
        RuleId::ServerConnected,
        RuleId::CreateLocalPlayer,
        RuleId::SuccessfullyJoined,
        RuleId::NetworkMetrics,
        RuleId::SetClientReadiness,
        RuleId::LoadedRound,
        RuleId::RequestLocalPlayer,
        RuleId::HandleRemotePlayer,
        RuleId::HandleLocalPlayer,
        RuleId::AppendSpectatorTarget,
        RuleId::PlayerSpawned,
        RuleId::SetLocalSquadId,
        RuleId::SetLocalPartyId,
        RuleId::GameSessionState,
        RuleId::SetNumPlayersAchievingObjective,
        RuleId::SetPlayerScore,
        RuleId::HandleUnspawn,
        RuleId::SetPlayerProgress,
        RuleId::GameLobbyRewards,
        RuleId::CreativeRoundLoader,
        RuleId::LeaveMatch,
        RuleId::RoundOver,
        RuleId::ServerMessageStartLoadingLevel,
        RuleId::ServerMessageReadyRoundResponse,
        RuleId::ServerMessageRoundResults,
        RuleId::ServerMessageEndRound,
    ]
}

/// The rule catalogue, in evaluation order.
pub fn rules() -> (r: Vec<RuleId>)
    ensures
        r@ == rule_order(),
{
    let v = vec![
        RuleId::GameStateChanged,
        RuleId::BeginMatchmaking,
        RuleId::MatchmakingMessageReceived,
        RuleId::ServerConnected,
        RuleId::CreateLocalPlayer,
        RuleId::SuccessfullyJoined,
        RuleId::NetworkMetrics,
        RuleId::SetClientReadiness,
        RuleId::LoadedRound,
        RuleId::RequestLocalPlayer,
        RuleId::HandleRemotePlayer,
        RuleId::HandleLocalPlayer,
        RuleId::AppendSpectatorTarget,
        RuleId::PlayerSpawned,
        RuleId::SetLocalSquadId,
        RuleId::SetLocalPartyId,
        RuleId::GameSessionState,
        RuleId::SetNumPlayersAchievingObjective,
        RuleId::SetPlayerScore,
        RuleId::HandleUnspawn,
        RuleId::SetPlayerProgress,
        RuleId::GameLobbyRewards,
        RuleId::CreativeRoundLoader,
        RuleId::LeaveMatch,
        RuleId::RoundOver,
        RuleId::ServerMessageStartLoadingLevel,
        RuleId::ServerMessageReadyRoundResponse,
        RuleId::ServerMessageRoundResults,
        RuleId::ServerMessageEndRound,
    ];
    proof {
        assert(v@ =~= rule_order());
    }
    v
}

/// The first rule of the list that applies to `s`, with its outcome.
pub open spec fn scan_decide(
    rules_list: Seq<RuleId>,
    s: Seq<char>,
    assets: FGExtraDataAssets,
) -> Option<(RuleId, ParseResult<GameMessageView>)>
    decreases rules_list.len(),
{
    if rules_list.len() == 0 {
        Option::None
    } else {
        match rule_eval(rules_list[0], s, assets) {
            ParseResult::NoMatch => scan_decide(rules_list.skip(1), s, assets),
            outcome => Option::Some((rules_list[0], outcome)),
        }
    }
}

/// Law: a rule's answer is a function of the input bytes and the tables;
/// two evaluations of the same rule on the same input agree, so every
/// parsed event's fields are fully determined by the input.
pub proof fn lemma_rule_deterministic(
    rid: RuleId,
    s: Seq<char>,
    assets: FGExtraDataAssets,
    r1: ParseResult<GameMessageView>,
    r2: ParseResult<GameMessageView>,
)
    requires
        r1 == rule_eval(rid, s, assets),
        r2 == rule_eval(rid, s, assets),
    ensures
        r1 == r2,
{
}

/// Law: a line on which every rule of the list passes decides nothing.
pub proof fn lemma_scan_all_pass(rules_list: Seq<RuleId>, s: Seq<char>, assets: FGExtraDataAssets)
    requires
        forall|j: int|
            0 <= j < rules_list.len() ==> rule_eval(rules_list[j], s, assets) == ParseResult::<
                GameMessageView,
            >::NoMatch,
    ensures
        scan_decide(rules_list, s, assets) is None,
    decreases rules_list.len(),
{
    if rules_list.len() > 0 {
        assert(rule_eval(rules_list[0], s, assets) == ParseResult::<
            GameMessageView,
        >::NoMatch);
        let rest = rules_list.skip(1);
        assert forall|j: int|
            0 <= j < rest.len() implies rule_eval(rest[j], s, assets) == ParseResult::<
            GameMessageView,
        >::NoMatch by {
            assert(rest[j] == rules_list[j + 1]);
        }
        lemma_scan_all_pass(rest, s, assets);
    }
}

/// Law: if every rule before position `idx` passes on `s` and the rule at
/// `idx` parses an event, the whole catalogue scan yields that same event.
/// Re-running the parser on a committed buffer therefore reproduces it.
pub proof fn lemma_scan_hits(
    rules_list: Seq<RuleId>,
    s: Seq<char>,
    assets: FGExtraDataAssets,
    idx: int,
    v: GameMessageView,
)
    requires
        0 <= idx < rules_list.len(),
        forall|j: int|
            0 <= j < idx ==> rule_eval(rules_list[j], s, assets) == ParseResult::<
                GameMessageView,
            >::NoMatch,
        rule_eval(rules_list[idx], s, assets) == ParseResult::Parsed(v),
    ensures
        scan_decide(rules_list, s, assets) == Option::Some(
            (rules_list[idx], ParseResult::Parsed(v)),
        ),
    decreases idx,
{
    if idx == 0 {
    } else {
        assert(rule_eval(rules_list[0], s, assets) == ParseResult::<
            GameMessageView,
        >::NoMatch);
        let rest = rules_list.skip(1);
        assert forall|j: int|
            0 <= j < idx - 1 implies rule_eval(rest[j], s, assets) == ParseResult::<
            GameMessageView,
        >::NoMatch by {
            assert(rest[j] == rules_list[j + 1]);
        }
        assert(rest[idx - 1] == rules_list[idx]);
        lemma_scan_hits(rest, s, assets, idx - 1, v);
    }
}

} // verus!
