//! Client state enumerations read off log lines: the game state machine, the
//! client readiness handshake, and the in-round session state. Each has an
//! `Unknown` fallback that carries the raw text.

use vstd::prelude::*;

use crate::text::starts_with_seq;
use crate::text::starts_with_sub;
use crate::text::str_eq;

verus! {

// ---------------------------------------------------------------------------
// Game state machine
// ---------------------------------------------------------------------------

/// Spec-level mirror of `FGGameState`.
pub enum GameStateView {
    StateMainMenu,
    StateMatchmaking,
    StateConnectToGame,
    StateConnectionAuthentication,
    StateGameLoading,
    StateWaitingForUser,
    StateGameInProgress,
    StateQualificationScreen,
    StateRoundReadyUp,
    StateUltimatePartyRewardFlow,
    StateVictoryScreen,
    StateWaitingForRewards,
    StateDisconnectingFromServer,
    StateRewardScreen,
    StateReloadingToMainMenu,
    Unknown(Seq<char>),
}

#[derive(Debug, Clone, PartialEq, Eq, Hash)]
pub enum FGGameState {
    StateMainMenu,
    StateMatchmaking,
    StateConnectToGame,
    StateConnectionAuthentication,
    StateGameLoading,
    StateWaitingForUser,
    StateGameInProgress,
    StateQualificationScreen,
    StateRoundReadyUp,
    /// Used for getting rewards on Explore and similar shows.
    StateUltimatePartyRewardFlow,
    StateVictoryScreen,
    StateWaitingForRewards,
    StateDisconnectingFromServer,
    StateRewardScreen,
    StateReloadingToMainMenu,
    Unknown(String),
}

impl View for FGGameState {
    type V = GameStateView;

    open spec fn view(&self) -> GameStateView {
        match self {
            FGGameState::StateMainMenu => GameStateView::StateMainMenu,
            FGGameState::StateMatchmaking => GameStateView::StateMatchmaking,
            FGGameState::StateConnectToGame => GameStateView::StateConnectToGame,
            FGGameState::StateConnectionAuthentication => GameStateView::StateConnectionAuthentication,
            FGGameState::StateGameLoading => GameStateView::StateGameLoading,
            FGGameState::StateWaitingForUser => GameStateView::StateWaitingForUser,
            FGGameState::StateGameInProgress => GameStateView::StateGameInProgress,
            FGGameState::StateQualificationScreen => GameStateView::StateQualificationScreen,
            FGGameState::StateRoundReadyUp => GameStateView::StateRoundReadyUp,
            FGGameState::StateUltimatePartyRewardFlow => GameStateView::StateUltimatePartyRewardFlow,
            FGGameState::StateVictoryScreen => GameStateView::StateVictoryScreen,
            FGGameState::StateWaitingForRewards => GameStateView::StateWaitingForRewards,
            FGGameState::StateDisconnectingFromServer => GameStateView::StateDisconnectingFromServer,
            FGGameState::StateRewardScreen => GameStateView::StateRewardScreen,
            FGGameState::StateReloadingToMainMenu => GameStateView::StateReloadingToMainMenu,
            FGGameState::Unknown(t) => GameStateView::Unknown(t@),
        }
    }
}

/// The state text with one leading `FGClient.` dropped, as the log writes
/// qualified state names.
pub open spec fn strip_fgclient(s: Seq<char>) -> Seq<char> {
    if starts_with_seq(s, "FGClient."@) {
        s.skip("FGClient."@.len() as int)
    } else {
        s
    }
}

/// Which `GameStateView` a piece of state text denotes.
pub open spec fn game_state_of(s: Seq<char>) -> GameStateView {
    let t = strip_fgclient(s);
    if t == "StateMainMenu"@ {
        GameStateView::StateMainMenu
    } else if t == "StateMatchmaking"@ {
        GameStateView::StateMatchmaking
    } else if t == "StateConnectToGame"@ {
        GameStateView::StateConnectToGame
    } else if t == "StateConnectionAuthentication"@ {
        GameStateView::StateConnectionAuthentication
    } else if t == "StateGameLoading"@ {
        GameStateView::StateGameLoading
    } else if t == "StateWaitingForUser"@ {
        GameStateView::StateWaitingForUser
    } else if t == "StateGameInProgress"@ {
        GameStateView::StateGameInProgress
    } else if t == "StateQualificationScreen"@ {
        GameStateView::StateQualificationScreen
    } else if t == "StateRoundReadyUp"@ {
        GameStateView::StateRoundReadyUp
    } else if t == "StateUltimatePartyRewardFlow"@ {
        GameStateView::StateUltimatePartyRewardFlow
    } else if t == "StateVictoryScreen"@ {
        GameStateView::StateVictoryScreen
    } else if t == "StateWaitingForRewards"@ {
        GameStateView::StateWaitingForRewards
    } else if t == "StateDisconnectingFromServer"@ {
        GameStateView::StateDisconnectingFromServer
    } else if t == "StateRewardScreen"@ {
        GameStateView::StateRewardScreen
    } else if t == "StateReloadingToMainMenu"@ {
        GameStateView::StateReloadingToMainMenu
    } else {
        GameStateView::Unknown(t)
    }
}

impl FGGameState {
    /// Read a state name, tolerating the `FGClient.` qualifier.
    pub fn from_text(s: &str) -> (r: Self)
        ensures
            r@ == game_state_of(s@),
    {
        let pre = "FGClient.";
        let t: &str = if starts_with_sub(s, pre) {
            let m = pre.unicode_len();
            let n = s.unicode_len();
            let rest = s.substring_char(m, n);
            proof {
                assert(rest@ =~= s@.skip(pre@.len() as int));
            }
            rest
        } else {
            s
        };
        proof {
            assert(t@ == strip_fgclient(s@));
        }
        if str_eq(t, "StateMainMenu") {
            FGGameState::StateMainMenu
        } else if str_eq(t, "StateMatchmaking") {
            FGGameState::StateMatchmaking
        } else if str_eq(t, "StateConnectToGame") {
            FGGameState::StateConnectToGame
        } else if str_eq(t, "StateConnectionAuthentication") {
            FGGameState::StateConnectionAuthentication
        } else if str_eq(t, "StateGameLoading") {
            FGGameState::StateGameLoading
        } else if str_eq(t, "StateWaitingForUser") {
            FGGameState::StateWaitingForUser
        } else if str_eq(t, "StateGameInProgress") {
            FGGameState::StateGameInProgress
        } else if str_eq(t, "StateQualificationScreen") {
            FGGameState::StateQualificationScreen
        } else if str_eq(t, "StateRoundReadyUp") {
            FGGameState::StateRoundReadyUp
        } else if str_eq(t, "StateUltimatePartyRewardFlow") {
            FGGameState::StateUltimatePartyRewardFlow
        } else if str_eq(t, "StateVictoryScreen") {
            FGGameState::StateVictoryScreen
        } else if str_eq(t, "StateWaitingForRewards") {
            FGGameState::StateWaitingForRewards
        } else if str_eq(t, "StateDisconnectingFromServer") {
            FGGameState::StateDisconnectingFromServer
        } else if str_eq(t, "StateRewardScreen") {
            FGGameState::StateRewardScreen
        } else if str_eq(t, "StateReloadingToMainMenu") {
            FGGameState::StateReloadingToMainMenu
        } else {
            FGGameState::Unknown(t.to_owned())
        }
    }
}

// ---------------------------------------------------------------------------
// Client readiness
// ---------------------------------------------------------------------------

/// Spec-level mirror of `FGClientReadinessState`.
pub enum ClientReadinessView {
    ReceivedLevelDetails,
    LevelLoaded,
    ObjectsSpawned,
    ReadyToPlay,
    Unknown(Seq<char>),
}

#[derive(Debug, Clone, PartialEq, Eq, Hash)]
pub enum FGClientReadinessState {
    ReceivedLevelDetails,
    LevelLoaded,
    ObjectsSpawned,
    ReadyToPlay,
    Unknown(String),
}

impl View for FGClientReadinessState {
    type V = ClientReadinessView;

    open spec fn view(&self) -> ClientReadinessView {
        match self {
            FGClientReadinessState::ReceivedLevelDetails => ClientReadinessView::ReceivedLevelDetails,
            FGClientReadinessState::LevelLoaded => ClientReadinessView::LevelLoaded,
            FGClientReadinessState::ObjectsSpawned => ClientReadinessView::ObjectsSpawned,
            FGClientReadinessState::ReadyToPlay => ClientReadinessView::ReadyToPlay,
            FGClientReadinessState::Unknown(t) => ClientReadinessView::Unknown(t@),
        }
    }
}

/// Which `ClientReadinessView` a piece of readiness text denotes.
pub open spec fn client_readiness_of(s: Seq<char>) -> ClientReadinessView {
    if s == "ReceivedLevelDetails"@ {
        ClientReadinessView::ReceivedLevelDetails
    } else if s == "LevelLoaded"@ {
        ClientReadinessView::LevelLoaded
    } else if s == "ObjectsSpawned"@ {
        ClientReadinessView::ObjectsSpawned
    } else if s == "ReadyToPlay"@ {
        ClientReadinessView::ReadyToPlay
    } else {
        ClientReadinessView::Unknown(s)
    }
}

impl FGClientReadinessState {
    pub fn from_text(s: &str) -> (r: Self)
        ensures
            r@ == client_readiness_of(s@),
    {
        if str_eq(s, "ReceivedLevelDetails") {
            FGClientReadinessState::ReceivedLevelDetails
        } else if str_eq(s, "LevelLoaded") {
            FGClientReadinessState::LevelLoaded
        } else if str_eq(s, "ObjectsSpawned") {
            FGClientReadinessState::ObjectsSpawned
        } else if str_eq(s, "ReadyToPlay") {
            FGClientReadinessState::ReadyToPlay
        } else {
            FGClientReadinessState::Unknown(s.to_owned())
        }
    }
}

// ---------------------------------------------------------------------------
// Game session state
// ---------------------------------------------------------------------------

/// Spec-level mirror of `FGGameSessionState`.
pub enum GameSessionStateView {
    Precountdown,
    Countdown,
    Playing,
    GameOver,
    Results,
    Unknown(Seq<char>),
}

#[derive(Debug, Clone, PartialEq, Eq, Hash)]
pub enum FGGameSessionState {
    Precountdown,
    Countdown,
    Playing,
    GameOver,
    Results,
    Unknown(String),
}

impl View for FGGameSessionState {
    type V = GameSessionStateView;

    open spec fn view(&self) -> GameSessionStateView {
        match self {
            FGGameSessionState::Precountdown => GameSessionStateView::Precountdown,
            FGGameSessionState::Countdown => GameSessionStateView::Countdown,
            FGGameSessionState::Playing => GameSessionStateView::Playing,
            FGGameSessionState::GameOver => GameSessionStateView::GameOver,
            FGGameSessionState::Results => GameSessionStateView::Results,
            FGGameSessionState::Unknown(t) => GameSessionStateView::Unknown(t@),
        }
    }
}

/// Which `GameSessionStateView` a piece of session text denotes.
pub open spec fn game_session_state_of(s: Seq<char>) -> GameSessionStateView {
    if s == "Precountdown"@ {
        GameSessionStateView::Precountdown
    } else if s == "Countdown"@ {
        GameSessionStateView::Countdown
    } else if s == "Playing"@ {
        GameSessionStateView::Playing
    } else if s == "GameOver"@ {
        GameSessionStateView::GameOver
    } else if s == "Results"@ {
        GameSessionStateView::Results
    } else {
        GameSessionStateView::Unknown(s)
    }
}

impl FGGameSessionState {
    pub fn from_text(s: &str) -> (r: Self)
        ensures
            r@ == game_session_state_of(s@),
    {
        if str_eq(s, "Precountdown") {
            FGGameSessionState::Precountdown
        } else if str_eq(s, "Countdown") {
            FGGameSessionState::Countdown
        } else if str_eq(s, "Playing") {
            FGGameSessionState::Playing
        } else if str_eq(s, "GameOver") {
            FGGameSessionState::GameOver
        } else if str_eq(s, "Results") {
            FGGameSessionState::Results
        } else {
            FGGameSessionState::Unknown(s.to_owned())
        }
    }
}

} // verus!
