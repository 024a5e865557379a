//! The end-of-episode reward summary, as the `CompletedEpisodeDto` block in
//! the log prints it.

use vstd::prelude::*;

use crate::common::FGRoundBadge;
use crate::common::RoundBadgeView;

verus! {

/// Spec-level mirror of `FGCompletedEpisodeDtoRound`.
pub struct CompletedRoundView {
    pub round_order: int,
    pub round_id_str: Seq<char>,
    pub round_display_name: Seq<char>,
    pub qualified: bool,
    pub position: int,
    pub team_score: int,
    pub kudos: int,
    pub fame: int,
    pub bonus_tier: int,
    pub bonus_kudos: int,
    pub bonus_fame: int,
    pub badge_id: RoundBadgeView,
}

/// Spec-level mirror of `FGCompletedEpisodeDto`.
pub struct CompletedEpisodeView {
    pub kudos: Option<int>,
    pub fame: Option<int>,
    pub crowns: Option<int>,
    pub current_crown_shards: Option<int>,
    pub rounds: Seq<CompletedRoundView>,
}

/// One round of the completed episode.
#[derive(Debug, Clone, PartialEq, Eq, Hash)]
pub struct FGCompletedEpisodeDtoRound {
    pub round_order: isize,
    pub round_id_str: String,
    pub round_display_name: String,
    pub qualified: bool,
    pub position: isize,
    pub team_score: isize,
    pub kudos: isize,
    pub fame: isize,
    pub bonus_tier: isize,
    pub bonus_kudos: isize,
    pub bonus_fame: isize,
    pub badge_id: FGRoundBadge,
}

impl View for FGCompletedEpisodeDtoRound {
    type V = CompletedRoundView;

    open spec fn view(&self) -> CompletedRoundView {
        CompletedRoundView {
            round_order: self.round_order as int,
            round_id_str: self.round_id_str@,
            round_display_name: self.round_display_name@,
            qualified: self.qualified,
            position: self.position as int,
            team_score: self.team_score as int,
            kudos: self.kudos as int,
            fame: self.fame as int,
            bonus_tier: self.bonus_tier as int,
            bonus_kudos: self.bonus_kudos as int,
            bonus_fame: self.bonus_fame as int,
            badge_id: self.badge_id@,
        }
    }
}

impl DeepView for FGCompletedEpisodeDtoRound {
    type V = CompletedRoundView;

    open spec fn deep_view(&self) -> CompletedRoundView {
        self.view()
    }
}

/// The episode summary: four optional totals plus the rounds in order.
#[derive(Debug, Clone, PartialEq, Eq, Hash)]
pub struct FGCompletedEpisodeDto {
    pub kudos: Option<isize>,
    pub fame: Option<isize>,
    pub crowns: Option<isize>,
    pub current_crown_shards: Option<isize>,
    pub rounds: Vec<FGCompletedEpisodeDtoRound>,
}

/// An optional machine integer seen as an optional mathematical one.
pub open spec fn opt_int(o: Option<isize>) -> Option<int> {
    match o {
        Option::Some(v) => Option::Some(v as int),
        Option::None => Option::None,
    }
}

impl View for FGCompletedEpisodeDto {
    type V = CompletedEpisodeView;

    open spec fn view(&self) -> CompletedEpisodeView {
        CompletedEpisodeView {
            kudos: opt_int(self.kudos),
            fame: opt_int(self.fame),
            crowns: opt_int(self.crowns),
            current_crown_shards: opt_int(self.current_crown_shards),
            rounds: self.rounds.deep_view(),
        }
    }
}

/// The fields of a round record before any property line filled them.
pub open spec fn default_round_view() -> CompletedRoundView {
    CompletedRoundView {
        round_order: 0,
        round_id_str: Seq::empty(),
        round_display_name: Seq::empty(),
        qualified: false,
        position: 0,
        team_score: 0,
        kudos: 0,
        fame: 0,
        bonus_tier: 0,
        bonus_kudos: 0,
        bonus_fame: 0,
        badge_id: RoundBadgeView::Fail,
    }
}

/// A round record with every field at its starting value.
pub fn generate_fg_completed_episode_dto_round() -> (r: FGCompletedEpisodeDtoRound)
    ensures
        r@ == default_round_view(),
{
    FGCompletedEpisodeDtoRound {
        round_order: 0,
        round_id_str: String::new(),
        round_display_name: String::new(),
        qualified: false,
        position: 0,
        team_score: 0,
        kudos: 0,
        fame: 0,
        bonus_tier: 0,
        bonus_kudos: 0,
        bonus_fame: 0,
        badge_id: FGRoundBadge::Fail,
    }
}

} // verus!
