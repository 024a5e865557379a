use fglog::assets::initialize_extra_data_assets;
use fglog::assets::FGExtraDataAssets;
use fglog::common::FGRoundBadge;
use fglog::messages::FGGameMessage;
use fglog::parser::LogParser;
use fglog::parser::ParseResult;
use fglog::rules_rewards::game_lobby_rewards;

fn empty_assets() -> FGExtraDataAssets {
    initialize_extra_data_assets(Vec::new(), Vec::new(), Vec::new(), Vec::new())
}

fn episode_block() -> String {
    [
        "== [CompletedEpisodeDto] ==",
        "> Kudos: 120",
        "> Fame: 50",
        "[Round 0 | round_tunnel_40]",
        "> Qualified: True",
        "> Position: 3",
        "> Kudos: 20",
        "> BadgeId: gold",
        "[Round 1 | round_slime_climb_2]",
        "> Qualified: False",
        "> Position: 17",
        "> BadgeId: fail",
        "[RewardService] Processing claimed rewards",
    ]
    .join("\n")
}

#[test]
fn rewards_commits_two_rounds_in_order() {
    let assets = empty_assets();
    let r = game_lobby_rewards(&episode_block(), &assets);
    match r {
        ParseResult::Parsed(FGGameMessage::GameLobbyRewards(dto)) => {
            assert_eq!(dto.kudos, Some(120));
            assert_eq!(dto.fame, Some(50));
            assert_eq!(dto.crowns, None);
            assert_eq!(dto.rounds.len(), 2);
            assert_eq!(dto.rounds[0].round_order, 0);
            assert_eq!(dto.rounds[0].round_id_str, "round_tunnel_40");
            assert_eq!(dto.rounds[0].qualified, true);
            assert_eq!(dto.rounds[0].position, 3);
            assert_eq!(dto.rounds[0].kudos, 20);
            assert_eq!(dto.rounds[0].badge_id, FGRoundBadge::Gold);
            assert_eq!(dto.rounds[1].round_order, 1);
            assert_eq!(dto.rounds[1].round_id_str, "round_slime_climb_2");
            assert_eq!(dto.rounds[1].qualified, false);
            assert_eq!(dto.rounds[1].badge_id, FGRoundBadge::Fail);
        }
        other => panic!("unexpected outcome: {:?}", other),
    }
}

#[test]
fn rewards_short_block_buffers() {
    let assets = empty_assets();
    let r = game_lobby_rewards("== [CompletedEpisodeDto] ==\n> Kudos: 120", &assets);
    assert_eq!(r, ParseResult::NeedMoreLines);
}

#[test]
fn rewards_out_of_scope_line_commits_immediately() {
    let assets = empty_assets();
    let text = "== [CompletedEpisodeDto] ==\n.TryUseSpectatingPlayersShot failed";
    let r = game_lobby_rewards(text, &assets);
    assert!(!matches!(r, ParseResult::NeedMoreLines));
}

#[test]
fn rewards_unknown_round_key_is_fatal() {
    let assets = empty_assets();
    let text = [
        "== [CompletedEpisodeDto] ==",
        "[Round 0 | round_tunnel_40]",
        "> Mystery: 5",
        "[RewardService] Processing claimed rewards",
    ]
    .join("\n");
    assert_eq!(game_lobby_rewards(&text, &assets), ParseResult::Unreachable);
}

#[test]
fn rewards_empty_round_value_means_absent() {
    let assets = empty_assets();
    let text = [
        "== [CompletedEpisodeDto] ==",
        "[Round 0 | round_a]",
        "> Position: ",
        "> Kudos: 7",
        "[Round 1 | round_b]",
        "> Kudos: 9",
        "[RewardService] Processing claimed rewards",
    ]
    .join("\n");
    match game_lobby_rewards(&text, &assets) {
        ParseResult::Parsed(FGGameMessage::GameLobbyRewards(dto)) => {
            assert_eq!(dto.rounds.len(), 2);
            assert_eq!(dto.rounds[0].position, 0);
            assert_eq!(dto.rounds[0].kudos, 7);
            assert_eq!(dto.rounds[1].kudos, 9);
        }
        other => panic!("unexpected outcome: {:?}", other),
    }
}

#[test]
fn rewards_single_round_block_keeps_its_round() {
    let assets = empty_assets();
    let text = [
        "== [CompletedEpisodeDto] ==",
        "> Kudos: 1",
        "[Round 0 | round_tunnel_40]",
        "> Qualified: True",
        "> Position: 5",
        "[RewardService] Processing claimed rewards",
    ]
    .join("\n");
    match game_lobby_rewards(&text, &assets) {
        ParseResult::Parsed(FGGameMessage::GameLobbyRewards(dto)) => {
            assert_eq!(dto.kudos, Some(1));
            assert_eq!(dto.rounds.len(), 1);
            assert_eq!(dto.rounds[0].round_order, 0);
            assert_eq!(dto.rounds[0].round_id_str, "round_tunnel_40");
            assert_eq!(dto.rounds[0].qualified, true);
            assert_eq!(dto.rounds[0].position, 5);
        }
        other => panic!("unexpected outcome: {:?}", other),
    }
}

#[test]
fn rewards_equal_orders_keep_both_records() {
    let assets = empty_assets();
    let text = [
        "== [CompletedEpisodeDto] ==",
        "[Round 0 | round_a]",
        "> Kudos: 3",
        "[Round 0 | round_b]",
        "> Kudos: 4",
        "[RewardService] Processing claimed rewards",
    ]
    .join("\n");
    match game_lobby_rewards(&text, &assets) {
        ParseResult::Parsed(FGGameMessage::GameLobbyRewards(dto)) => {
            assert_eq!(dto.rounds.len(), 2);
            assert_eq!(dto.rounds[0].round_id_str, "round_a");
            assert_eq!(dto.rounds[0].kudos, 3);
            assert_eq!(dto.rounds[1].round_id_str, "round_b");
            assert_eq!(dto.rounds[1].kudos, 4);
        }
        other => panic!("unexpected outcome: {:?}", other),
    }
}

#[test]
fn rewards_rule_passes_without_tag() {
    let assets = empty_assets();
    assert_eq!(game_lobby_rewards("no rewards here", &assets), ParseResult::NoMatch);
}

#[test]
fn rewards_block_streams_through_the_parser() {
    let assets = empty_assets();
    let mut parser = LogParser::new();
    let mut events = Vec::new();
    for line in episode_block().split('\n') {
        if let Some(message) = parser.parse_line(line, &assets).expect("no fatal outcome") {
            events.push(message);
        }
    }
    assert_eq!(events.len(), 1);
    match &events[0] {
        FGGameMessage::GameLobbyRewards(dto) => {
            assert_eq!(dto.kudos, Some(120));
            assert_eq!(dto.rounds.len(), 2);
            assert_eq!(dto.rounds[0].round_id_str, "round_tunnel_40");
            assert_eq!(dto.rounds[1].round_id_str, "round_slime_climb_2");
        }
        other => panic!("unexpected event: {:?}", other),
    }
}

#[test]
fn rewards_re_parse_of_committed_buffer_repeats_the_event() {
    let assets = empty_assets();
    let text = episode_block();
    let first = game_lobby_rewards(&text, &assets);
    let second = game_lobby_rewards(&text, &assets);
    assert_eq!(first, second);
    assert!(matches!(first, ParseResult::Parsed(FGGameMessage::GameLobbyRewards(_))));
}
