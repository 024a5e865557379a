//! The snapshot records a downstream aggregator publishes. The library only
//! defines their shape; filling them is the consumer's business.

use vstd::prelude::*;

use crate::common::FGGameMode;
use crate::common::FGPlatform;
use crate::common::FGRoundBadge;
use crate::messages::FGMatchmakingMessage;
use crate::state::FGGameSessionState;
use crate::state::FGGameState;

verus! {

/// The current game, as far as the stream has shown it.
pub struct FGExportsCurrent {
    pub state: Option<FGGameState>,
    pub game_session_state: Option<FGGameSessionState>,
    pub gamemode: Option<FGGameMode>,
    pub round_info: Option<FGExportsRoundInfo>,
    pub round_result: Option<FGExportsRoundResult>,
    pub lobby_info: Option<FGExportsLobbyInfo>,
}

/// The latest matchmaking message, if any.
pub struct FGExportsMatchmaking(pub Option<FGMatchmakingMessage>);

/// The round currently loaded.
pub struct FGExportsRoundInfo {
    pub round_order: isize,
    pub round_id_str: String,
    pub round_display_name: String,
    pub duration: Option<isize>,
}

/// How the round ended.
pub struct FGExportsRoundResult {
    pub badge: Option<FGRoundBadge>,
    pub qualified: bool,
    /// Unix timestamp; set when the round ends with a round-over message.
    pub round_over_time: Option<usize>,
}

/// Who is in the lobby and how far away the server is.
pub struct FGExportsLobbyInfo {
    pub platforms: Vec<(FGPlatform, isize)>,
    pub latency: Option<isize>,
    pub latency_from_time: Option<isize>,
}

} // verus!
