//! Common value types: game modes, platforms, round badges and round
//! information, each with the text classification the log lines use.

use vstd::prelude::*;

use crate::assets::FGExtraDataAssets;
use crate::assets::FGExtraDataShowsItem;
use crate::assets::assoc_find;
use crate::assets::localized_string_round_id;
use crate::assets::localized_string_show_id;
use crate::assets::round_display_name_spec;
use crate::assets::show_display_name_spec;
use crate::assets::table_find;
use crate::text::contains_seq;
use crate::text::contains_sub;
use crate::text::starts_with_seq;
use crate::text::starts_with_sub;
use crate::text::str_eq;

verus! {

/// Player ids as the log prints them.
pub type FGPlayerId = isize;

/// Net-object player ids; incremented independently of `FGPlayerId`.
pub type FGNetPlayerId = isize;

/// A creative round's share code.
pub type FGCreativeShareCode = String;

// ---------------------------------------------------------------------------
// Game mode
// ---------------------------------------------------------------------------

/// Spec-level mirror of `FGGameMode`.
pub enum GameModeView {
    Knockout,
    RankedKnockout,
    ClassicSolo,
    ClassicDuo,
    ClassicSquads,
    Explore,
    CreatorSpotlight,
    Extra { name: Seq<char>, id: Seq<char> },
    UnknownAssumed(Box<GameModeView>, Seq<char>),
    Unknown(Seq<char>),
}

/// The game mode a show identifier denotes.
#[derive(Debug, PartialEq, Eq, Hash)]
pub enum FGGameMode {
    Knockout,
    RankedKnockout,
    ClassicSolo,
    ClassicDuo,
    ClassicSquads,
    Explore,
    CreatorSpotlight,
    /// Extra modes resolved through the `shows` table.
    Extra { name: String, id: String },
    /// An unrecognised show id that a substring heuristic still classified.
    UnknownAssumed(Box<FGGameMode>, String),
    /// An unrecognised show id that no heuristic classified.
    Unknown(String),
}

/// The view of a game mode, written as a free function so the recursion
/// through the boxed inner mode stays direct.
pub open spec fn game_mode_view(m: FGGameMode) -> GameModeView
    decreases m,
{
    match m {
        FGGameMode::Knockout => GameModeView::Knockout,
        FGGameMode::RankedKnockout => GameModeView::RankedKnockout,
        FGGameMode::ClassicSolo => GameModeView::ClassicSolo,
        FGGameMode::ClassicDuo => GameModeView::ClassicDuo,
        FGGameMode::ClassicSquads => GameModeView::ClassicSquads,
        FGGameMode::Explore => GameModeView::Explore,
        FGGameMode::CreatorSpotlight => GameModeView::CreatorSpotlight,
        FGGameMode::Extra { name, id } => GameModeView::Extra { name: name@, id: id@ },
        FGGameMode::UnknownAssumed(inner, raw) => GameModeView::UnknownAssumed(
            Box::new(game_mode_view(*inner)),
            raw@,
        ),
        FGGameMode::Unknown(raw) => GameModeView::Unknown(raw@),
    }
}

impl View for FGGameMode {
    type V = GameModeView;

    open spec fn view(&self) -> GameModeView {
        game_mode_view(*self)
    }
}

/// The substring fallback for a show id that neither the fixed list nor the
/// `shows` table recognises.
pub open spec fn game_mode_fallback(s: Seq<char>) -> GameModeView {
    if contains_seq(s, "solo"@) {
        GameModeView::UnknownAssumed(Box::new(GameModeView::ClassicSolo), s)
    } else if contains_seq(s, "duo"@) {
        GameModeView::UnknownAssumed(Box::new(GameModeView::ClassicDuo), s)
    } else if contains_seq(s, "squads"@) {
        GameModeView::UnknownAssumed(Box::new(GameModeView::ClassicSquads), s)
    } else if contains_seq(s, "ranked"@) {
        GameModeView::UnknownAssumed(Box::new(GameModeView::RankedKnockout), s)
    } else if contains_seq(s, "knockout"@) {
        GameModeView::UnknownAssumed(Box::new(GameModeView::Knockout), s)
    } else if contains_seq(s, "explore"@) {
        GameModeView::UnknownAssumed(Box::new(GameModeView::Explore), s)
    } else {
        GameModeView::Unknown(s)
    }
}

/// Which game mode a show id denotes, given the reference tables.
pub open spec fn game_mode_of(
    shows: Seq<(String, FGExtraDataShowsItem)>,
    strings: Seq<(String, String)>,
    s: Seq<char>,
) -> GameModeView {
    if s == "ranked_show_knockout"@ {
        GameModeView::RankedKnockout
    } else if s == "knockout_mode"@ {
        GameModeView::Knockout
    } else if s == "classic_solo_main_show"@ {
        GameModeView::ClassicSolo
    } else if s == "classic_duos_show"@ {
        GameModeView::ClassicDuo
    } else if s == "classic_squads_show"@ {
        GameModeView::ClassicSquads
    } else if s == "spotlight_mode"@ {
        GameModeView::CreatorSpotlight
    } else if s == "casual_show"@ {
        GameModeView::Explore
    } else if assoc_find(shows, s) is Some {
        GameModeView::Extra { name: show_display_name_spec(shows, strings, s), id: s }
    } else {
        game_mode_fallback(s)
    }
}

impl FGGameMode {
    /// Classify a show id, resolving extra shows through the `shows` table
    /// and falling back to substring heuristics.
    pub fn from_show_id(s: &str, assets: &FGExtraDataAssets) -> (r: Self)
        ensures
            r@ == game_mode_of(assets.shows@, assets.localized_strings@, s@),
    {
        proof {
            reveal_with_fuel(game_mode_view, 2);
        }
        if str_eq(s, "ranked_show_knockout") {
            FGGameMode::RankedKnockout
        } else if str_eq(s, "knockout_mode") {
            FGGameMode::Knockout
        } else if str_eq(s, "classic_solo_main_show") {
            FGGameMode::ClassicSolo
        } else if str_eq(s, "classic_duos_show") {
            FGGameMode::ClassicDuo
        } else if str_eq(s, "classic_squads_show") {
            FGGameMode::ClassicSquads
        } else if str_eq(s, "spotlight_mode") {
            FGGameMode::CreatorSpotlight
        } else if str_eq(s, "casual_show") {
            FGGameMode::Explore
        } else if table_find(&assets.shows, s).is_some() {
            FGGameMode::Extra { name: localized_string_show_id(assets, s), id: s.to_owned() }
        } else if contains_sub(s, "solo") {
            FGGameMode::UnknownAssumed(Box::new(FGGameMode::ClassicSolo), s.to_owned())
        } else if contains_sub(s, "duo") {
            FGGameMode::UnknownAssumed(Box::new(FGGameMode::ClassicDuo), s.to_owned())
        } else if contains_sub(s, "squads") {
            FGGameMode::UnknownAssumed(Box::new(FGGameMode::ClassicSquads), s.to_owned())
        } else if contains_sub(s, "ranked") {
            FGGameMode::UnknownAssumed(Box::new(FGGameMode::RankedKnockout), s.to_owned())
        } else if contains_sub(s, "knockout") {
            FGGameMode::UnknownAssumed(Box::new(FGGameMode::Knockout), s.to_owned())
        } else if contains_sub(s, "explore") {
            FGGameMode::UnknownAssumed(Box::new(FGGameMode::Explore), s.to_owned())
        } else {
            FGGameMode::Unknown(s.to_owned())
        }
    }
}

// ---------------------------------------------------------------------------
// Platform
// ---------------------------------------------------------------------------

/// Spec-level mirror of `FGPlatform`.
pub enum PlatformView {
    PCEpicGamesStore,
    PCSteam,
    PCStandalone,
    Switch,
    XboxOne,
    XboxSeriesX,
    PlayStation4,
    PlayStation5,
    AndroidStandalone,
    AndroidEpicGamesAccount,
    IOSEpicGamesAccount,
    Unknown(Option<Seq<char>>),
}

/// The platform a spectator-target suffix names.
#[derive(Debug, Clone, PartialEq, Eq, Hash)]
pub enum FGPlatform {
    /// pc_egs
    PCEpicGamesStore,
    /// pc_steam
    PCSteam,
    /// pc_standalone
    PCStandalone,
    /// switch
    Switch,
    /// xb1
    XboxOne,
    /// xsx
    XboxSeriesX,
    /// ps4
    PlayStation4,
    /// ps5
    PlayStation5,
    /// android_standalone
    AndroidStandalone,
    /// android_ega
    AndroidEpicGamesAccount,
    /// ios_ega
    IOSEpicGamesAccount,
    Unknown(Option<String>),
}

impl View for FGPlatform {
    type V = PlatformView;

    open spec fn view(&self) -> PlatformView {
        match self {
            FGPlatform::PCEpicGamesStore => PlatformView::PCEpicGamesStore,
            FGPlatform::PCSteam => PlatformView::PCSteam,
            FGPlatform::PCStandalone => PlatformView::PCStandalone,
            FGPlatform::Switch => PlatformView::Switch,
            FGPlatform::XboxOne => PlatformView::XboxOne,
            FGPlatform::XboxSeriesX => PlatformView::XboxSeriesX,
            FGPlatform::PlayStation4 => PlatformView::PlayStation4,
            FGPlatform::PlayStation5 => PlatformView::PlayStation5,
            FGPlatform::AndroidStandalone => PlatformView::AndroidStandalone,
            FGPlatform::AndroidEpicGamesAccount => PlatformView::AndroidEpicGamesAccount,
            FGPlatform::IOSEpicGamesAccount => PlatformView::IOSEpicGamesAccount,
            FGPlatform::Unknown(t) => PlatformView::Unknown(
                match t {
                    Option::Some(x) => Option::Some(x@),
                    Option::None => Option::None,
                },
            ),
        }
    }
}

/// Which platform a platform id denotes.
pub open spec fn platform_of(s: Seq<char>) -> PlatformView {
    if s == "pc_egs"@ {
        PlatformView::PCEpicGamesStore
    } else if s == "pc_steam"@ {
        PlatformView::PCSteam
    } else if s == "pc_standalone"@ {
        PlatformView::PCStandalone
    } else if s == "switch"@ {
        PlatformView::Switch
    } else if s == "xb1"@ {
        PlatformView::XboxOne
    } else if s == "xsx"@ {
        PlatformView::XboxSeriesX
    } else if s == "ps4"@ {
        PlatformView::PlayStation4
    } else if s == "ps5"@ {
        PlatformView::PlayStation5
    } else if s == "android_standalone"@ {
        PlatformView::AndroidStandalone
    } else if s == "android_ega"@ {
        PlatformView::AndroidEpicGamesAccount
    } else if s == "ios_ega"@ {
        PlatformView::IOSEpicGamesAccount
    } else {
        PlatformView::Unknown(Option::Some(s))
    }
}

impl FGPlatform {
    pub fn from_text(s: &str) -> (r: Self)
        ensures
            r@ == platform_of(s@),
    {
        if str_eq(s, "pc_egs") {
            FGPlatform::PCEpicGamesStore
        } else if str_eq(s, "pc_steam") {
            FGPlatform::PCSteam
        } else if str_eq(s, "pc_standalone") {
            FGPlatform::PCStandalone
        } else if str_eq(s, "switch") {
            FGPlatform::Switch
        } else if str_eq(s, "xb1") {
            FGPlatform::XboxOne
        } else if str_eq(s, "xsx") {
            FGPlatform::XboxSeriesX
        } else if str_eq(s, "ps4") {
            FGPlatform::PlayStation4
        } else if str_eq(s, "ps5") {
            FGPlatform::PlayStation5
        } else if str_eq(s, "android_standalone") {
            FGPlatform::AndroidStandalone
        } else if str_eq(s, "android_ega") {
            FGPlatform::AndroidEpicGamesAccount
        } else if str_eq(s, "ios_ega") {
            FGPlatform::IOSEpicGamesAccount
        } else {
            FGPlatform::Unknown(Some(s.to_owned()))
        }
    }
}

// ---------------------------------------------------------------------------
// Round badge
// ---------------------------------------------------------------------------

/// Spec-level mirror of `FGRoundBadge`.
pub enum RoundBadgeView {
    Gold,
    Silver,
    Bronze,
    NoBadge,
    Fail,
    Unknown(Option<Seq<char>>),
}

/// The badge a round awarded.
#[derive(Debug, Clone, PartialEq, Eq, Hash)]
pub enum FGRoundBadge {
    Gold,
    Silver,
    Bronze,
    /// The log's `none` badge value.
    NoBadge,
    Fail,
    Unknown(Option<String>),
}

impl View for FGRoundBadge {
    type V = RoundBadgeView;

    open spec fn view(&self) -> RoundBadgeView {
        match self {
            FGRoundBadge::Gold => RoundBadgeView::Gold,
            FGRoundBadge::Silver => RoundBadgeView::Silver,
            FGRoundBadge::Bronze => RoundBadgeView::Bronze,
            FGRoundBadge::NoBadge => RoundBadgeView::NoBadge,
            FGRoundBadge::Fail => RoundBadgeView::Fail,
            FGRoundBadge::Unknown(t) => RoundBadgeView::Unknown(
                match t {
                    Option::Some(x) => Option::Some(x@),
                    Option::None => Option::None,
                },
            ),
        }
    }
}

/// Which badge a badge id denotes.
pub open spec fn round_badge_of(s: Seq<char>) -> RoundBadgeView {
    if s == "gold"@ {
        RoundBadgeView::Gold
    } else if s == "silver"@ {
        RoundBadgeView::Silver
    } else if s == "bronze"@ {
        RoundBadgeView::Bronze
    } else if s == "none"@ {
        RoundBadgeView::NoBadge
    } else if s == "fail"@ {
        RoundBadgeView::Fail
    } else {
        RoundBadgeView::Unknown(Option::Some(s))
    }
}

impl FGRoundBadge {
    pub fn from_text(s: &str) -> (r: Self)
        ensures
            r@ == round_badge_of(s@),
    {
        if str_eq(s, "gold") {
            FGRoundBadge::Gold
        } else if str_eq(s, "silver") {
            FGRoundBadge::Silver
        } else if str_eq(s, "bronze") {
            FGRoundBadge::Bronze
        } else if str_eq(s, "none") {
            FGRoundBadge::NoBadge
        } else if str_eq(s, "fail") {
            FGRoundBadge::Fail
        } else {
            FGRoundBadge::Unknown(Some(s.to_owned()))
        }
    }
}

// ---------------------------------------------------------------------------
// Round information
// ---------------------------------------------------------------------------

/// Spec-level mirror of `FGRoundInfo`.
pub struct RoundInfoView {
    pub id: Seq<char>,
    pub display_name: Seq<char>,
}

/// A round and its resolved display name.
#[derive(Debug, Clone, PartialEq, Eq, Hash)]
pub struct FGRoundInfo {
    pub id: String,
    /// Retrieved from the `levels_round` table.
    pub display_name: String,
}

impl View for FGRoundInfo {
    type V = RoundInfoView;

    open spec fn view(&self) -> RoundInfoView {
        RoundInfoView { id: self.id@, display_name: self.display_name@ }
    }
}

/// The round record a round id denotes: creative rounds get a fixed prefix,
/// others resolve through the `levels_round` table.
pub open spec fn round_info_of(
    levels: Seq<(String, crate::assets::FGExtraDataLevelsRoundItem)>,
    strings: Seq<(String, String)>,
    id: Seq<char>,
) -> RoundInfoView {
    if starts_with_seq(id, "ugc-"@) {
        RoundInfoView { id: id, display_name: "Creative: "@ + id }
    } else {
        RoundInfoView { id: id, display_name: round_display_name_spec(levels, strings, id) }
    }
}

impl FGRoundInfo {
    /// Build the record for a round id such as `round_tunnel_40`.
    pub fn from_str_id(id: &str, assets: &FGExtraDataAssets) -> (r: Self)
        ensures
            r@ == round_info_of(assets.levels_round@, assets.localized_strings@, id@),
    {
        if starts_with_sub(id, "ugc-") {
            FGRoundInfo {
                id: id.to_owned(),
                display_name: String::from_str("Creative: ").concat(id),
            }
        } else {
            FGRoundInfo { id: id.to_owned(), display_name: localized_string_round_id(assets, id) }
        }
    }
}

} // verus!
