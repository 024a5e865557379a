use fglog::assets::initialize_extra_data_assets;
use fglog::assets::FGExtraDataAssets;
use fglog::catalog::apply_rule;
use fglog::catalog::rules;
use fglog::catalog::RuleId;
use fglog::common::FGGameMode;
use fglog::messages::FGGameMessage;
use fglog::parser::LogParser;
use fglog::parser::ParseResult;
use fglog::parser::ParserError;

fn empty_assets() -> FGExtraDataAssets {
    initialize_extra_data_assets(Vec::new(), Vec::new(), Vec::new(), Vec::new())
}

#[test]
fn catalogue_has_every_rule_once() {
    let list = rules();
    assert_eq!(list.len(), 29);
    assert_eq!(list[0], RuleId::GameStateChanged);
    assert_eq!(list[28], RuleId::ServerMessageEndRound);
    for (i, a) in list.iter().enumerate() {
        for b in list.iter().skip(i + 1) {
            assert_ne!(a, b);
        }
    }
}

#[test]
fn parser_emits_single_line_event() {
    let assets = empty_assets();
    let mut parser = LogParser::new();
    let r = parser.parse_line("[Matchmaking] Begin matchmaking solo", &assets);
    assert_eq!(r, Ok(Some(FGGameMessage::BeginMatchmaking)));
}

#[test]
fn unmatched_line_is_dropped_without_pending_state() {
    let assets = empty_assets();
    let mut parser = LogParser::new();
    let r = parser.parse_line("nothing the rules know", &assets);
    assert_eq!(r, Ok(None));
    assert!(parser.pending.is_none());
    // the next line still sees the full catalogue
    let r = parser.parse_line("[Matchmaking] Begin matchmaking duo", &assets);
    assert_eq!(r, Ok(Some(FGGameMessage::BeginMatchmaking)));
}

#[test]
fn two_line_join_buffers_then_emits() {
    let assets = empty_assets();
    let mut parser = LogParser::new();
    let first = parser.parse_line(
        "[HandleSuccessfulLogin] Selected show is ranked_show_knockout",
        &assets,
    );
    assert_eq!(first, Ok(None));
    assert!(parser.pending.is_some());
    let second = parser.parse_line("[HandleSuccessfulLogin] Session: abcd-1234", &assets);
    assert_eq!(
        second,
        Ok(Some(FGGameMessage::SuccessfullyJoined {
            game_mode: FGGameMode::RankedKnockout,
            session_text: Some("abcd-1234".to_owned()),
        }))
    );
    assert!(parser.pending.is_none());
}

#[test]
fn pending_block_abandoned_when_rule_passes() {
    let assets = empty_assets();
    let mut parser = LogParser::new();
    // the status block opens ...
    let r = parser.parse_line("[FNMMSClientRemoteService] Status message received:", &assets);
    assert_eq!(r, Ok(None));
    assert!(parser.pending.is_some());
    // ... and an Error name makes the pending rule pass: block abandoned
    let r = parser.parse_line("  \"name\": \"Error\",  \"state\": \"x\"", &assets);
    assert_eq!(r, Ok(None));
    assert!(parser.pending.is_none());
}

#[test]
fn pending_rule_failure_is_fatal() {
    let assets = empty_assets();
    let mut parser = LogParser::new();
    let r = parser.parse_line("[FNMMSClientRemoteService] Status message received:", &assets);
    assert_eq!(r, Ok(None));
    let r = parser.parse_line("  \"state\": \"Mystery\"", &assets);
    assert_eq!(r, Err(ParserError::RuleFailed));
}

#[test]
fn buffer_cap_aborts_a_runaway_block() {
    let assets = empty_assets();
    let mut parser = LogParser::new();
    let r = parser.parse_line("[FNMMSClientRemoteService] Status message received:", &assets);
    assert_eq!(r, Ok(None));
    let mut outcome = Ok(None);
    for _ in 0..101 {
        outcome = parser.parse_line("{", &assets);
        if outcome.is_err() {
            break;
        }
    }
    assert_eq!(outcome, Err(ParserError::BufferOverflow));
}

#[test]
fn re_parse_of_committed_two_line_buffer_repeats_the_event() {
    let assets = empty_assets();
    let buffer = "[HandleSuccessfulLogin] Selected show is ranked_show_knockout\n[HandleSuccessfulLogin] Session: abcd-1234";
    let direct = apply_rule(RuleId::SuccessfullyJoined, buffer, &assets);
    let mut parser = LogParser::new();
    let replay = parser.parse_line(buffer, &assets);
    match (direct, replay) {
        (ParseResult::Parsed(a), Ok(Some(b))) => assert_eq!(a, b),
        other => panic!("unexpected outcomes: {:?}", other),
    }
}

#[test]
fn earlier_rules_win_on_overlapping_lines() {
    // a line carrying both a score shape and an unspawn marker goes to the
    // rule that stands earlier in the catalogue
    let assets = empty_assets();
    let mut parser = LogParser::new();
    let line = "Player 3 score = 9 [ClientGameManager] Handling unspawn for player 3";
    let r = parser.parse_line(line, &assets);
    assert_eq!(
        r,
        Ok(Some(FGGameMessage::SetPlayerScore { net_player_id: 3, score: 9 }))
    );
}
