//! The typed game-event messages the parser emits, one variant per rule.

use vstd::prelude::*;

use crate::common::FGCreativeShareCode;
use crate::common::FGGameMode;
use crate::common::FGNetPlayerId;
use crate::common::FGPlatform;
use crate::common::FGPlayerId;
use crate::common::FGRoundInfo;
use crate::common::GameModeView;
use crate::common::PlatformView;
use crate::common::RoundInfoView;
use crate::dto::CompletedEpisodeView;
use crate::dto::FGCompletedEpisodeDto;
use crate::state::ClientReadinessView;
use crate::state::FGClientReadinessState;
use crate::state::FGGameSessionState;
use crate::state::FGGameState;
use crate::state::GameSessionStateView;
use crate::state::GameStateView;

verus! {

/// Spec-level mirror of `FGMatchmakingMessage`.
pub enum MatchmakingMessageView {
    Connecting,
    QueueFull,
    Waiting,
    Queued { queued_players: int },
    SessionAssignment,
    Play,
}

/// A status message received while matchmaking.
#[derive(Debug, Clone, PartialEq, Eq, Hash)]
pub enum FGMatchmakingMessage {
    /// Connecting to the matchmaking server.
    Connecting,
    /// The queue was full when joining.
    QueueFull,
    /// Waiting for a server.
    Waiting,
    /// Queued behind the given number of players.
    Queued { queued_players: isize },
    /// A session was assigned; `Play` follows.
    SessionAssignment,
    /// The match is starting.
    Play,
}

impl View for FGMatchmakingMessage {
    type V = MatchmakingMessageView;

    open spec fn view(&self) -> MatchmakingMessageView {
        match self {
            FGMatchmakingMessage::Connecting => MatchmakingMessageView::Connecting,
            FGMatchmakingMessage::QueueFull => MatchmakingMessageView::QueueFull,
            FGMatchmakingMessage::Waiting => MatchmakingMessageView::Waiting,
            FGMatchmakingMessage::Queued { queued_players } => MatchmakingMessageView::Queued {
                queued_players: *queued_players as int,
            },
            FGMatchmakingMessage::SessionAssignment => MatchmakingMessageView::SessionAssignment,
            FGMatchmakingMessage::Play => MatchmakingMessageView::Play,
        }
    }
}

/// An optional owned string seen as an optional character sequence.
pub open spec fn opt_text(o: Option<String>) -> Option<Seq<char>> {
    match o {
        Option::Some(v) => Option::Some(v@),
        Option::None => Option::None,
    }
}

/// An optional machine integer seen as an optional mathematical one.
pub open spec fn opt_id(o: Option<isize>) -> Option<int> {
    match o {
        Option::Some(v) => Option::Some(v as int),
        Option::None => Option::None,
    }
}

/// Spec-level mirror of `FGGameMessage`.
pub enum GameMessageView {
    GameStateChanged { before: Option<GameStateView>, after: GameStateView },
    BeginMatchmaking,
    MatchmakingMessageReceived(MatchmakingMessageView),
    ServerConnected { ip_addr: Seq<char>, port: Option<Seq<char>> },
    CreateLocalPlayer(int),
    SuccessfullyJoined { game_mode: GameModeView, session_text: Option<Seq<char>> },
    NetworkMetrics { latency: int },
    SetClientReadiness(ClientReadinessView),
    LoadedRound(RoundInfoView),
    RequestLocalPlayer(int),
    HandleRemotePlayer { player_id: int, net_player_id: int, squad_id: Option<int> },
    HandleLocalPlayer { player_id: int, net_player_id: int, squad_id: Option<int> },
    AppendSpectatorTarget {
        player_id: int,
        squad_id: Option<int>,
        party_id: Option<int>,
        platform: PlatformView,
    },
    PlayerSpawned { player_id: int, net_player_id: int },
    SetLocalSquadId(Option<int>),
    SetLocalPartyId(Option<int>),
    GameSessionState { after: GameSessionStateView, before: Option<GameSessionStateView> },
    SetNumPlayersAchievingObjective(int),
    SetPlayerScore { net_player_id: int, score: int },
    HandleUnspawn(int),
    SetPlayerProgress { player_id: int, is_succeeded: bool },
    GameLobbyRewards(CompletedEpisodeView),
    CreativeRoundLoader(Seq<char>),
    LeaveMatch,
    RoundOver,
    ServerMessageStartLoadingLevel,
    ServerMessageReadyRoundResponse,
    ServerMessageRoundResults,
    ServerMessageEndRound,
}

/// One structured game event read off the log.
#[derive(Debug, PartialEq, Eq, Hash)]
pub enum FGGameMessage {
    /// The game state machine replaced one state with another.
    GameStateChanged { before: Option<FGGameState>, after: FGGameState },
    /// Matchmaking started.
    BeginMatchmaking,
    /// A status message arrived while matchmaking.
    MatchmakingMessageReceived(FGMatchmakingMessage),
    /// The client connected to a game server.
    ServerConnected { ip_addr: String, port: Option<String> },
    /// A local player was created with the given player id.
    CreateLocalPlayer(FGPlayerId),
    /// The client joined a show's lobby.
    SuccessfullyJoined { game_mode: FGGameMode, session_text: Option<String> },
    /// A networking metrics dump; only the round-trip latency is kept.
    NetworkMetrics { latency: isize },
    /// The client advanced its readiness handshake.
    SetClientReadiness(FGClientReadinessState),
    /// A round finished loading.
    LoadedRound(FGRoundInfo),
    /// Spawn of the local player was requested.
    RequestLocalPlayer(FGPlayerId),
    /// Bootstrap data for a remote player.
    HandleRemotePlayer {
        player_id: FGPlayerId,
        net_player_id: FGNetPlayerId,
        squad_id: Option<isize>,
    },
    /// Bootstrap data for the local player.
    HandleLocalPlayer {
        player_id: FGPlayerId,
        net_player_id: FGNetPlayerId,
        squad_id: Option<isize>,
    },
    /// A spectator target was added; carries platform and party data.
    AppendSpectatorTarget {
        player_id: FGPlayerId,
        squad_id: Option<isize>,
        party_id: Option<isize>,
        platform: FGPlatform,
    },
    /// A player object spawned; may repeat for one player.
    PlayerSpawned { player_id: FGPlayerId, net_player_id: FGNetPlayerId },
    /// The local squad id changed.
    SetLocalSquadId(Option<isize>),
    /// The local party id changed.
    SetLocalPartyId(Option<isize>),
    /// The in-round session state changed.
    GameSessionState { after: FGGameSessionState, before: Option<FGGameSessionState> },
    /// The count of players achieving the round objective.
    SetNumPlayersAchievingObjective(isize),
    /// A per-player score update.
    SetPlayerScore { net_player_id: FGNetPlayerId, score: isize },
    /// A player object unspawned.
    HandleUnspawn(FGNetPlayerId),
    /// A player's succeeded flag.
    SetPlayerProgress { player_id: FGPlayerId, is_succeeded: bool },
    /// The end-of-episode reward table.
    GameLobbyRewards(FGCompletedEpisodeDto),
    /// A creative round is loading via its share code.
    CreativeRoundLoader(FGCreativeShareCode),
    /// The leave-match popup closed its screen.
    LeaveMatch,
    /// The server declared the round over.
    RoundOver,
    ServerMessageStartLoadingLevel,
    ServerMessageReadyRoundResponse,
    ServerMessageRoundResults,
    ServerMessageEndRound,
}

impl View for FGGameMessage {
    type V = GameMessageView;

    open spec fn view(&self) -> GameMessageView {
        match self {
            FGGameMessage::GameStateChanged { before, after } => GameMessageView::GameStateChanged {
                before: match before {
                    Option::Some(b) => Option::Some(b@),
                    Option::None => Option::None,
                },
                after: after@,
            },
            FGGameMessage::BeginMatchmaking => GameMessageView::BeginMatchmaking,
            FGGameMessage::MatchmakingMessageReceived(m) => GameMessageView::MatchmakingMessageReceived(
                m@,
            ),
            FGGameMessage::ServerConnected { ip_addr, port } => GameMessageView::ServerConnected {
                ip_addr: ip_addr@,
                port: opt_text(*port),
            },
            FGGameMessage::CreateLocalPlayer(id) => GameMessageView::CreateLocalPlayer(*id as int),
            FGGameMessage::SuccessfullyJoined { game_mode, session_text } => GameMessageView::SuccessfullyJoined {
                game_mode: game_mode@,
                session_text: opt_text(*session_text),
            },
            FGGameMessage::NetworkMetrics { latency } => GameMessageView::NetworkMetrics {
                latency: *latency as int,
            },
            FGGameMessage::SetClientReadiness(s) => GameMessageView::SetClientReadiness(s@),
            FGGameMessage::LoadedRound(r) => GameMessageView::LoadedRound(r@),
            FGGameMessage::RequestLocalPlayer(id) => GameMessageView::RequestLocalPlayer(
                *id as int,
            ),
            FGGameMessage::HandleRemotePlayer { player_id, net_player_id, squad_id } => GameMessageView::HandleRemotePlayer {
                player_id: *player_id as int,
                net_player_id: *net_player_id as int,
                squad_id: opt_id(*squad_id),
            },
            FGGameMessage::HandleLocalPlayer { player_id, net_player_id, squad_id } => GameMessageView::HandleLocalPlayer {
                player_id: *player_id as int,
                net_player_id: *net_player_id as int,
                squad_id: opt_id(*squad_id),
            },
            FGGameMessage::AppendSpectatorTarget { player_id, squad_id, party_id, platform } => GameMessageView::AppendSpectatorTarget {
                player_id: *player_id as int,
                squad_id: opt_id(*squad_id),
                party_id: opt_id(*party_id),
                platform: platform@,
            },
            FGGameMessage::PlayerSpawned { player_id, net_player_id } => GameMessageView::PlayerSpawned {
                player_id: *player_id as int,
                net_player_id: *net_player_id as int,
            },
            FGGameMessage::SetLocalSquadId(id) => GameMessageView::SetLocalSquadId(opt_id(*id)),
            FGGameMessage::SetLocalPartyId(id) => GameMessageView::SetLocalPartyId(opt_id(*id)),
            FGGameMessage::GameSessionState { after, before } => GameMessageView::GameSessionState {
                after: after@,
                before: match before {
                    Option::Some(b) => Option::Some(b@),
                    Option::None => Option::None,
                },
            },
            FGGameMessage::SetNumPlayersAchievingObjective(n) => GameMessageView::SetNumPlayersAchievingObjective(
                *n as int,
            ),
            FGGameMessage::SetPlayerScore { net_player_id, score } => GameMessageView::SetPlayerScore {
                net_player_id: *net_player_id as int,
                score: *score as int,
            },
            FGGameMessage::HandleUnspawn(id) => GameMessageView::HandleUnspawn(*id as int),
            FGGameMessage::SetPlayerProgress { player_id, is_succeeded } => GameMessageView::SetPlayerProgress {
                player_id: *player_id as int,
                is_succeeded: *is_succeeded,
            },
            FGGameMessage::GameLobbyRewards(dto) => GameMessageView::GameLobbyRewards(dto@),
            FGGameMessage::CreativeRoundLoader(code) => GameMessageView::CreativeRoundLoader(code@),
            FGGameMessage::LeaveMatch => GameMessageView::LeaveMatch,
            FGGameMessage::RoundOver => GameMessageView::RoundOver,
            FGGameMessage::ServerMessageStartLoadingLevel => GameMessageView::ServerMessageStartLoadingLevel,
            FGGameMessage::ServerMessageReadyRoundResponse => GameMessageView::ServerMessageReadyRoundResponse,
            FGGameMessage::ServerMessageRoundResults => GameMessageView::ServerMessageRoundResults,
            FGGameMessage::ServerMessageEndRound => GameMessageView::ServerMessageEndRound,
        }
    }
}

} // verus!
