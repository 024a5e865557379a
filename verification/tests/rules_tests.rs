use fglog::assets::initialize_extra_data_assets;
use fglog::assets::FGExtraDataAssets;
use fglog::common::FGGameMode;
use fglog::common::FGPlatform;
use fglog::messages::FGGameMessage;
use fglog::messages::FGMatchmakingMessage;
use fglog::parser::ParseResult;
use fglog::rules::begin_matchmaking;
use fglog::rules::create_local_player;
use fglog::rules::creative_round_loader;
use fglog::rules::game_session_state;
use fglog::rules::game_state_changed;
use fglog::rules::handle_unspawn;
use fglog::rules::leave_match;
use fglog::rules::loaded_round;
use fglog::rules::player_spawned;
use fglog::rules::request_local_player;
use fglog::rules::round_over;
use fglog::rules::server_connected;
use fglog::rules::server_message_end_round;
use fglog::rules::server_message_ready_round_response;
use fglog::rules::server_message_round_results;
use fglog::rules::server_message_start_loading_level;
use fglog::rules::set_client_readiness;
use fglog::rules::set_local_party_id;
use fglog::rules::set_local_squad_id;
use fglog::rules::set_num_players_achieving_objectsive;
use fglog::rules::set_player_progress;
use fglog::rules::set_player_score;
use fglog::rules_bootstrap::append_spectator_target;
use fglog::rules_bootstrap::handle_local_player;
use fglog::rules_bootstrap::handle_remote_player;
use fglog::rules_multiline::matchmaking_message_received;
use fglog::rules_multiline::network_metrics;
use fglog::rules_multiline::successfully_joined;
use fglog::state::FGClientReadinessState;
use fglog::state::FGGameSessionState;
use fglog::state::FGGameState;

fn empty_assets() -> FGExtraDataAssets {
    initialize_extra_data_assets(Vec::new(), Vec::new(), Vec::new(), Vec::new())
}

#[test]
fn game_state_changed_scenario() {
    let r = game_state_changed(
        "[GameStateMachine] Replacing FGClient.StateMainMenu with FGClient.StateMatchmaking",
    );
    assert_eq!(
        r,
        ParseResult::Parsed(FGGameMessage::GameStateChanged {
            before: Some(FGGameState::StateMainMenu),
            after: FGGameState::StateMatchmaking,
        })
    );
}

#[test]
fn game_state_changed_requires_target() {
    let r = game_state_changed("[GameStateMachine] Replacing FGClient.StateMainMenu with ");
    assert_eq!(r, ParseResult::Unreachable);
}

#[test]
fn game_state_changed_ignores_other_lines() {
    assert_eq!(game_state_changed("[Matchmaking] Begin matchmaking solo"), ParseResult::NoMatch);
}

#[test]
fn begin_matchmaking_scenario() {
    let r = begin_matchmaking("[Matchmaking] Begin matchmaking solo");
    assert_eq!(r, ParseResult::Parsed(FGGameMessage::BeginMatchmaking));
}

#[test]
fn server_connected_scenario() {
    let r = server_connected(
        "[StateConnectToGame] InitiateNetworkConnectRequest with server IP: 10.0.0.5:7777",
    );
    assert_eq!(
        r,
        ParseResult::Parsed(FGGameMessage::ServerConnected {
            ip_addr: "10.0.0.5".to_owned(),
            port: Some("7777".to_owned()),
        })
    );
}

#[test]
fn create_local_player_scenario() {
    let r = create_local_player(
        "[CreateLocalPlayerInstances] Added new player as Participant, player ID = 3",
    );
    assert_eq!(r, ParseResult::Parsed(FGGameMessage::CreateLocalPlayer(3)));
}

#[test]
fn successfully_joined_needs_session_line() {
    let assets = empty_assets();
    let first = successfully_joined(
        "[HandleSuccessfulLogin] Selected show is ranked_show_knockout",
        &assets,
    );
    assert_eq!(first, ParseResult::NeedMoreLines);
    let both = successfully_joined(
        "[HandleSuccessfulLogin] Selected show is ranked_show_knockout\n[HandleSuccessfulLogin] Session: abcd-1234",
        &assets,
    );
    assert_eq!(
        both,
        ParseResult::Parsed(FGGameMessage::SuccessfullyJoined {
            game_mode: FGGameMode::RankedKnockout,
            session_text: Some("abcd-1234".to_owned()),
        })
    );
}

#[test]
fn game_mode_fallback_classifies_by_substring() {
    let assets = empty_assets();
    let r = successfully_joined(
        "[HandleSuccessfulLogin] Selected show is weird_solo_event\n[HandleSuccessfulLogin] Session: x",
        &assets,
    );
    match r {
        ParseResult::Parsed(FGGameMessage::SuccessfullyJoined { game_mode, .. }) => {
            assert_eq!(
                game_mode,
                FGGameMode::UnknownAssumed(
                    Box::new(FGGameMode::ClassicSolo),
                    "weird_solo_event".to_owned()
                )
            );
        }
        other => panic!("unexpected outcome: {:?}", other),
    }
}

#[test]
fn loaded_round_scenario() {
    let assets = empty_assets();
    let r = loaded_round(
        "[StateGameLoading] Finished loading game level, assumed to be round_tunnel_40. Duration: .99s",
        &assets,
    );
    match r {
        ParseResult::Parsed(FGGameMessage::LoadedRound(info)) => {
            assert_eq!(info.id, "round_tunnel_40");
            assert_eq!(info.display_name, "round_tunnel_40 (Unknown)");
        }
        other => panic!("unexpected outcome: {:?}", other),
    }
}

#[test]
fn network_metrics_parses_latency_with_separators() {
    let r = network_metrics(
        "[FG_UnityInternetNetworkManager] Networking Metrics after 123.4 s of operation:\nNetwork - RTT: 1,234ms",
    );
    assert_eq!(r, ParseResult::Parsed(FGGameMessage::NetworkMetrics { latency: 1234 }));
}

#[test]
fn network_metrics_needs_rtt_line() {
    let r = network_metrics(
        "[FG_UnityInternetNetworkManager] Networking Metrics after 123.4 s of operation:",
    );
    assert_eq!(r, ParseResult::NeedMoreLines);
}

#[test]
fn network_metrics_malformed_rtt_is_fatal() {
    let r = network_metrics(
        "[FG_UnityInternetNetworkManager] Networking Metrics after 1 s:\nNetwork - RTT: broken",
    );
    assert_eq!(r, ParseResult::Unreachable);
}

#[test]
fn set_client_readiness_scenario() {
    let r = set_client_readiness(
        "[ClientGameManager] Setting this client as readiness state 'ReceivedLevelDetails'.",
    );
    assert_eq!(
        r,
        ParseResult::Parsed(FGGameMessage::SetClientReadiness(
            FGClientReadinessState::ReceivedLevelDetails
        ))
    );
}

#[test]
fn set_client_readiness_unknown_state_kept() {
    let r = set_client_readiness(
        "[ClientGameManager] Setting this client as readiness state 'Surprise'.",
    );
    assert_eq!(
        r,
        ParseResult::Parsed(FGGameMessage::SetClientReadiness(
            FGClientReadinessState::Unknown("Surprise".to_owned())
        ))
    );
}

#[test]
fn request_local_player_scenario() {
    let r = request_local_player("Requesting spawn of local player, ID=0");
    assert_eq!(r, ParseResult::Parsed(FGGameMessage::RequestLocalPlayer(0)));
}

#[test]
fn handle_remote_player_scenario() {
    let r = handle_remote_player(
        "[ClientGameManager] Handling bootstrap for remote player FallGuy [17] (FG.Common.MPGNetObject), playerID = 4, squadID = 2",
    );
    assert_eq!(
        r,
        ParseResult::Parsed(FGGameMessage::HandleRemotePlayer {
            player_id: 4,
            net_player_id: 17,
            squad_id: Some(2),
        })
    );
}

#[test]
fn handle_local_player_scenario() {
    let r = handle_local_player(
        "[ClientGameManager] Handling bootstrap for local player FallGuy [35] (FG.Common.MPGNetObject), playerID = 0, squadID = 0",
    );
    assert_eq!(
        r,
        ParseResult::Parsed(FGGameMessage::HandleLocalPlayer {
            player_id: 0,
            net_player_id: 35,
            squad_id: Some(0),
        })
    );
}

#[test]
fn append_spectator_target_scenario() {
    let r = append_spectator_target(
        "[CameraDirector] Adding Spectator target Somebody (pc_egs) with Party ID: 123 Squad ID: 7 and playerID: 6",
    );
    assert_eq!(
        r,
        ParseResult::Parsed(FGGameMessage::AppendSpectatorTarget {
            player_id: 6,
            squad_id: Some(7),
            party_id: Some(123),
            platform: FGPlatform::PCEpicGamesStore,
        })
    );
}

#[test]
fn append_spectator_target_blank_party_absent() {
    let r = append_spectator_target(
        "[CameraDirector] Adding Spectator target Somebody (ps5) with Party ID:   Squad ID: 0 and playerID: 1",
    );
    assert_eq!(
        r,
        ParseResult::Parsed(FGGameMessage::AppendSpectatorTarget {
            player_id: 1,
            squad_id: Some(0),
            party_id: None,
            platform: FGPlatform::PlayStation5,
        })
    );
}

#[test]
fn append_spectator_target_name_with_parentheses() {
    // the target name is free text; the platform is the parenthesised run
    // right before the party marker
    let r = append_spectator_target(
        "[CameraDirector] Adding Spectator target Foo (bar) baz (ps5) with Party ID: 1 Squad ID: 2 and playerID: 3",
    );
    assert_eq!(
        r,
        ParseResult::Parsed(FGGameMessage::AppendSpectatorTarget {
            player_id: 3,
            squad_id: Some(2),
            party_id: Some(1),
            platform: FGPlatform::PlayStation5,
        })
    );
}

#[test]
fn handle_remote_player_name_with_brackets() {
    // a bracketed tag inside the name is not the net id; the anchor is the
    // bracketed digits that `] (` really follows
    let r = handle_remote_player(
        "[ClientGameManager] Handling bootstrap for remote player Foo [BR] Bar [17] (FG.Common.MPGNetObject), playerID = 1, squadID = 2",
    );
    assert_eq!(
        r,
        ParseResult::Parsed(FGGameMessage::HandleRemotePlayer {
            player_id: 1,
            net_player_id: 17,
            squad_id: Some(2),
        })
    );
}

#[test]
fn player_spawned_scenario() {
    let r = player_spawned("[StateGameLoading] OnPlayerSpawned - NetID=6 ID=5 was spawned");
    assert_eq!(
        r,
        ParseResult::Parsed(FGGameMessage::PlayerSpawned { player_id: 5, net_player_id: 6 })
    );
}

#[test]
fn set_local_squad_id_absent_clears() {
    let r = set_local_squad_id("[CameraDirector] Set Local Squad ID: ");
    assert_eq!(r, ParseResult::Parsed(FGGameMessage::SetLocalSquadId(None)));
    let r = set_local_squad_id("[CameraDirector] Set Local Squad ID: 4");
    assert_eq!(r, ParseResult::Parsed(FGGameMessage::SetLocalSquadId(Some(4))));
}

#[test]
fn set_local_party_id_scenario() {
    let r = set_local_party_id("[CameraDirector] Set Local Party ID: 12");
    assert_eq!(r, ParseResult::Parsed(FGGameMessage::SetLocalPartyId(Some(12))));
}

#[test]
fn game_session_state_scenario() {
    let r = game_session_state("[GameSession] Changing state from Precountdown to Countdown");
    assert_eq!(
        r,
        ParseResult::Parsed(FGGameMessage::GameSessionState {
            after: FGGameSessionState::Countdown,
            before: Some(FGGameSessionState::Precountdown),
        })
    );
}

#[test]
fn objective_count_scenario() {
    let r = set_num_players_achieving_objectsive(
        "[ClientGameSession] NumPlayersAchievingObjective=13",
    );
    assert_eq!(r, ParseResult::Parsed(FGGameMessage::SetNumPlayersAchievingObjective(13)));
}

#[test]
fn set_player_score_scenario() {
    let r = set_player_score("Player 21 score = 350");
    assert_eq!(
        r,
        ParseResult::Parsed(FGGameMessage::SetPlayerScore { net_player_id: 21, score: 350 })
    );
}

#[test]
fn set_player_score_missing_number_is_fatal() {
    let r = set_player_score("Player  score = 350");
    assert_eq!(r, ParseResult::Unreachable);
}

#[test]
fn handle_unspawn_scenario() {
    let r = handle_unspawn("[ClientGameManager] Handling unspawn for player 1");
    assert_eq!(r, ParseResult::Parsed(FGGameMessage::HandleUnspawn(1)));
}

#[test]
fn set_player_progress_scenario() {
    let r = set_player_progress(
        "ClientGameManager::HandleServerPlayerProgress PlayerId=2 is succeeded=True",
    );
    assert_eq!(
        r,
        ParseResult::Parsed(FGGameMessage::SetPlayerProgress {
            player_id: 2,
            is_succeeded: true,
        })
    );
    let r = set_player_progress(
        "ClientGameManager::HandleServerPlayerProgress PlayerId=2 is succeeded=False",
    );
    assert_eq!(
        r,
        ParseResult::Parsed(FGGameMessage::SetPlayerProgress {
            player_id: 2,
            is_succeeded: false,
        })
    );
}

#[test]
fn creative_round_loader_scenario() {
    let r = creative_round_loader("[RoundLoader] Load UGC via share code: 0275-8967-0239:572");
    assert_eq!(
        r,
        ParseResult::Parsed(FGGameMessage::CreativeRoundLoader("0275-8967-0239".to_owned()))
    );
}

#[test]
fn boundary_markers_parse() {
    assert_eq!(
        leave_match("[LeaveMatchPopupManager] Calling CloseScreen()"),
        ParseResult::Parsed(FGGameMessage::LeaveMatch)
    );
    assert_eq!(
        round_over("[ClientGameManager] Server notifying that the round is over."),
        ParseResult::Parsed(FGGameMessage::RoundOver)
    );
    assert_eq!(
        server_message_start_loading_level("GameMessageServerStartLoadingLevel received"),
        ParseResult::Parsed(FGGameMessage::ServerMessageStartLoadingLevel)
    );
    assert_eq!(
        server_message_ready_round_response("GameMessageServerReadyRoundResponse received"),
        ParseResult::Parsed(FGGameMessage::ServerMessageReadyRoundResponse)
    );
    assert_eq!(
        server_message_round_results("GameMessageServerRoundResults received"),
        ParseResult::Parsed(FGGameMessage::ServerMessageRoundResults)
    );
    assert_eq!(
        server_message_end_round("GameMessageServerEndRound received"),
        ParseResult::Parsed(FGGameMessage::ServerMessageEndRound)
    );
}

#[test]
fn matchmaking_status_parses_states() {
    let header = "[FNMMSClientRemoteService] Status message received:";
    assert_eq!(matchmaking_message_received(header), ParseResult::NeedMoreLines);
    let queued = format!("{}\n  \"queuedPlayers\": 12,\n  \"state\": \"Queued\"", header);
    assert_eq!(
        matchmaking_message_received(&queued),
        ParseResult::Parsed(FGGameMessage::MatchmakingMessageReceived(
            FGMatchmakingMessage::Queued { queued_players: 12 }
        ))
    );
    let waiting = format!("{}\n  \"state\": \"Waiting\"", header);
    assert_eq!(
        matchmaking_message_received(&waiting),
        ParseResult::Parsed(FGGameMessage::MatchmakingMessageReceived(
            FGMatchmakingMessage::Waiting
        ))
    );
    let error = format!("{}\n  \"name\": \"Error\",\n  \"state\": \"Whatever\"", header);
    assert_eq!(matchmaking_message_received(&error), ParseResult::NoMatch);
    let unknown = format!("{}\n  \"state\": \"Mystery\"", header);
    assert_eq!(matchmaking_message_received(&unknown), ParseResult::Unreachable);
}
