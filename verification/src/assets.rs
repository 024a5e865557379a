//! Static reference data bundled with the game client: game rules, rounds,
//! localized strings and shows. The tables are association lists keyed by id;
//! the loader that reads them from disk lives outside the library and hands
//! the parsed items in.

use vstd::prelude::*;

use crate::text::starts_with_seq;
use crate::text::starts_with_sub;
use crate::text::str_eq;

verus! {

#[derive(Debug, Clone)]
pub struct FGExtraDataGameRulesItem {
    pub id: String,
    pub min_participants: Option<isize>,
    pub max_participants: Option<isize>,
    pub min_participants_private_lobby: Option<isize>,
    pub max_participants_private_lobby: Option<isize>,
    pub qualification_percentage: Option<isize>,
    pub squads_qualification_percentage: Option<isize>,
    pub has_timer: Option<bool>,
    pub duration: isize,
    pub time_left_red_alert_threshold: isize,
    pub game_manager_spawn_type: String,
    pub round_end_condition: String,
    pub overtime_mode: String,
    pub overtime_amount: Option<isize>,
    pub team_mode: String,
    pub team_count: Option<isize>,
    pub require_same_team_sizes: Option<bool>,
    pub required_team_eliminations: Option<isize>,
    pub is_scoring_game: Option<bool>,
    pub score_display_mode: String,
    pub use_creator_score_target: Option<bool>,
    pub score_target: Option<isize>,
    pub score_target_squad_2players: Option<isize>,
    pub score_target_squad_3players: Option<isize>,
    pub score_target_squad_4players: Option<isize>,
    pub is_piggyback_enabled: Option<bool>,
    pub tom_round_rules: String,
}

#[derive(Debug, Clone)]
pub struct FGExtraDataLevelsRoundItem {
    pub id: String,
    pub display_name: Option<String>,
    pub game_rules: String,
    pub round_info: Option<String>,
    pub main_ambience_state: String,
    pub loading_screen_name: String,
    pub level_badge_name: String,
    pub tags: Vec<String>,
    pub level_archetype: String,
    pub fall_feed: Option<String>,
}

#[derive(Debug, Clone)]
pub struct FGExtraDataLocalizedStringsItem {
    pub id: String,
    pub text: String,
}

#[derive(Debug, Clone)]
pub struct FGExtraDataShowsItemShowType {
    pub showtype_switch: String,
    /// Not present when `showtype_switch` is individual.
    pub squad_size: Option<u32>,
}

#[derive(Debug, Clone)]
pub struct FGExtraDataShowsItem {
    pub id: String,
    pub show_name: Option<String>,
    pub show_description: Option<String>,
    pub content_label: String,
    pub min_party_size: u32,
    pub max_party_size: u32,
    pub show_type: FGExtraDataShowsItemShowType,
    pub episode_reward_settings_id: String,
}

/// The reference tables, each an association list keyed by the item's id.
pub struct FGExtraDataAssets {
    pub game_rules: Vec<(String, FGExtraDataGameRulesItem)>,
    pub levels_round: Vec<(String, FGExtraDataLevelsRoundItem)>,
    pub localized_strings: Vec<(String, String)>,
    pub shows: Vec<(String, FGExtraDataShowsItem)>,
}

// ---------------------------------------------------------------------------
// Association-list lookup
// ---------------------------------------------------------------------------

/// The value of the last entry whose key is `key`: the tables are keyed by
/// repeated insertion, so a repeated id overwrites the earlier entry.
pub open spec fn assoc_find<V>(t: Seq<(String, V)>, key: Seq<char>) -> Option<V>
    decreases t.len(),
{
    if t.len() == 0 {
        Option::None
    } else if t.last().0@ == key {
        Option::Some(t.last().1)
    } else {
        assoc_find(t.drop_last(), key)
    }
}

/// Look a key up in an association list; the newest entry wins.
pub fn table_find<'a, V>(t: &'a Vec<(String, V)>, key: &str) -> (r: Option<&'a V>)
    ensures
        match r {
            Some(v) => assoc_find(t@, key@) == Option::Some(*v),
            None => assoc_find(t@, key@) is None,
        },
{
    let n = t.len();
    let mut i: usize = n;
    proof {
        assert(t@.subrange(0, n as int) =~= t@);
    }
    while i > 0
        invariant
            n == t@.len(),
            0 <= i <= n,
            assoc_find(t@, key@) == assoc_find(t@.subrange(0, i as int), key@),
        decreases i,
    {
        let idx = i - 1;
        proof {
            let sub = t@.subrange(0, i as int);
            assert(sub.last() == t@[idx as int]);
            assert(sub.drop_last() =~= t@.subrange(0, idx as int));
        }
        if str_eq(t[idx].0.as_str(), key) {
            return Some(&t[idx].1);
        }
        i = idx;
    }
    proof {
        assert(t@.subrange(0, 0) =~= Seq::<(String, V)>::empty());
    }
    None
}

// ---------------------------------------------------------------------------
// Building the tables
// ---------------------------------------------------------------------------

/// Key the four item lists by their ids.
pub fn initialize_extra_data_assets(
    game_rules: Vec<FGExtraDataGameRulesItem>,
    levels_round: Vec<FGExtraDataLevelsRoundItem>,
    localized_strings: Vec<FGExtraDataLocalizedStringsItem>,
    shows: Vec<FGExtraDataShowsItem>,
) -> (r: FGExtraDataAssets)
    ensures
        r.game_rules@.len() == game_rules@.len(),
        forall|i: int|
            0 <= i < game_rules@.len() ==> r.game_rules@[i].0@ == game_rules@[i].id@
                && r.game_rules@[i].1 == game_rules@[i],
        r.levels_round@.len() == levels_round@.len(),
        forall|i: int|
            0 <= i < levels_round@.len() ==> r.levels_round@[i].0@ == levels_round@[i].id@
                && r.levels_round@[i].1 == levels_round@[i],
        r.localized_strings@.len() == localized_strings@.len(),
        forall|i: int|
            0 <= i < localized_strings@.len() ==> r.localized_strings@[i].0@
                == localized_strings@[i].id@ && r.localized_strings@[i].1@
                == localized_strings@[i].text@,
        r.shows@.len() == shows@.len(),
        forall|i: int|
            0 <= i < shows@.len() ==> r.shows@[i].0@ == shows@[i].id@ && r.shows@[i].1
                == shows@[i],
{
    let mut game_rules = game_rules;
    let ghost g_orig = game_rules@;
    let mut game_rules_tbl: Vec<(String, FGExtraDataGameRulesItem)> = Vec::new();
    let mut k: usize = 0;
    let gn = game_rules.len();
    proof {
        assert(g_orig.skip(0) =~= g_orig);
    }
    while k < gn
        invariant
            gn == g_orig.len(),
            0 <= k <= gn,
            game_rules@ =~= g_orig.skip(k as int),
            game_rules_tbl@.len() == k,
            forall|i: int|
                0 <= i < k ==> game_rules_tbl@[i].0@ == g_orig[i].id@ && game_rules_tbl@[i].1
                    == g_orig[i],
        decreases gn - k,
    {
        let item = game_rules.remove(0);
        proof {
            assert(item == g_orig[k as int]);
            assert(game_rules@ =~= g_orig.skip(k as int + 1));
        }
        let key = item.id.clone();
        game_rules_tbl.push((key, item));
        k += 1;
    }
    let mut levels_round = levels_round;
    let ghost l_orig = levels_round@;
    let mut levels_tbl: Vec<(String, FGExtraDataLevelsRoundItem)> = Vec::new();
    let mut k: usize = 0;
    let ln = levels_round.len();
    proof {
        assert(l_orig.skip(0) =~= l_orig);
    }
    while k < ln
        invariant
            ln == l_orig.len(),
            0 <= k <= ln,
            levels_round@ =~= l_orig.skip(k as int),
            levels_tbl@.len() == k,
            forall|i: int|
                0 <= i < k ==> levels_tbl@[i].0@ == l_orig[i].id@ && levels_tbl@[i].1 == l_orig[i],
        decreases ln - k,
    {
        let item = levels_round.remove(0);
        proof {
            assert(item == l_orig[k as int]);
            assert(levels_round@ =~= l_orig.skip(k as int + 1));
        }
        let key = item.id.clone();
        levels_tbl.push((key, item));
        k += 1;
    }
    let mut localized_strings = localized_strings;
    let ghost s_orig = localized_strings@;
    let mut strings_tbl: Vec<(String, String)> = Vec::new();
    let mut k: usize = 0;
    let sn = localized_strings.len();
    proof {
        assert(s_orig.skip(0) =~= s_orig);
    }
    while k < sn
        invariant
            sn == s_orig.len(),
            0 <= k <= sn,
            localized_strings@ =~= s_orig.skip(k as int),
            strings_tbl@.len() == k,
            forall|i: int|
                0 <= i < k ==> strings_tbl@[i].0@ == s_orig[i].id@ && strings_tbl@[i].1@
                    == s_orig[i].text@,
        decreases sn - k,
    {
        let item = localized_strings.remove(0);
        proof {
            assert(item == s_orig[k as int]);
            assert(localized_strings@ =~= s_orig.skip(k as int + 1));
        }
        strings_tbl.push((item.id, item.text));
        k += 1;
    }
    let mut shows = shows;
    let ghost h_orig = shows@;
    let mut shows_tbl: Vec<(String, FGExtraDataShowsItem)> = Vec::new();
    let mut k: usize = 0;
    let hn = shows.len();
    proof {
        assert(h_orig.skip(0) =~= h_orig);
    }
    while k < hn
        invariant
            hn == h_orig.len(),
            0 <= k <= hn,
            shows@ =~= h_orig.skip(k as int),
            shows_tbl@.len() == k,
            forall|i: int|
                0 <= i < k ==> shows_tbl@[i].0@ == h_orig[i].id@ && shows_tbl@[i].1 == h_orig[i],
        decreases hn - k,
    {
        let item = shows.remove(0);
        proof {
            assert(item == h_orig[k as int]);
            assert(shows@ =~= h_orig.skip(k as int + 1));
        }
        let key = item.id.clone();
        shows_tbl.push((key, item));
        k += 1;
    }
    FGExtraDataAssets {
        game_rules: game_rules_tbl,
        levels_round: levels_tbl,
        localized_strings: strings_tbl,
        shows: shows_tbl,
    }
}

// ---------------------------------------------------------------------------
// Localized-string resolution
// ---------------------------------------------------------------------------

/// The key with one leading `localised_strings.` qualifier dropped.
pub open spec fn strip_loc_prefix(key: Seq<char>) -> Seq<char> {
    if starts_with_seq(key, "localised_strings."@) {
        key.skip("localised_strings."@.len() as int)
    } else {
        key
    }
}

/// What `localized_string` returns: the table's text for the stripped key,
/// or a marked miss.
pub open spec fn localized_string_spec(tbl: Seq<(String, String)>, key: Seq<char>) -> Seq<
    char,
> {
    let k = strip_loc_prefix(key);
    match assoc_find(tbl, k) {
        Option::Some(text) => text@,
        Option::None => "unknown_localized_key."@ + k,
    }
}

/// Resolve a localized-string key against the `localised_strings` table.
pub fn localized_string(assets: &FGExtraDataAssets, key: &str) -> (r: String)
    ensures
        r@ == localized_string_spec(assets.localized_strings@, key@),
{
    let pre = "localised_strings.";
    let k: &str = if starts_with_sub(key, pre) {
        let m = pre.unicode_len();
        let n = key.unicode_len();
        let rest = key.substring_char(m, n);
        proof {
            assert(rest@ =~= key@.skip(pre@.len() as int));
        }
        rest
    } else {
        key
    };
    proof {
        assert(k@ == strip_loc_prefix(key@));
    }
    match table_find(&assets.localized_strings, k) {
        Some(text) => text.clone(),
        None => {
            let out = String::from_str("unknown_localized_key.").concat(k);
            out
        },
    }
}

/// What `localized_string_round_id` returns for a round id.
pub open spec fn round_display_name_spec(
    levels: Seq<(String, FGExtraDataLevelsRoundItem)>,
    strings: Seq<(String, String)>,
    round_id: Seq<char>,
) -> Seq<char> {
    match assoc_find(levels, round_id) {
        Option::Some(item) => match item.display_name {
            Option::Some(dn) => localized_string_spec(strings, dn@),
            Option::None => round_id + " (no display name)"@,
        },
        Option::None => round_id + " (Unknown)"@,
    }
}

/// The display name of a round, resolved through the `levels_round` table.
pub fn localized_string_round_id(assets: &FGExtraDataAssets, round_id: &str) -> (r: String)
    ensures
        r@ == round_display_name_spec(assets.levels_round@, assets.localized_strings@, round_id@),
{
    match table_find(&assets.levels_round, round_id) {
        Some(item) => match &item.display_name {
            Some(dn) => localized_string(assets, dn.as_str()),
            None => String::from_str(round_id).concat(" (no display name)"),
        },
        None => String::from_str(round_id).concat(" (Unknown)"),
    }
}

/// What `localized_string_show_id` returns for a show id.
pub open spec fn show_display_name_spec(
    shows: Seq<(String, FGExtraDataShowsItem)>,
    strings: Seq<(String, String)>,
    show_id: Seq<char>,
) -> Seq<char> {
    match assoc_find(shows, show_id) {
        Option::Some(item) => match item.show_name {
            Option::Some(sn) => localized_string_spec(strings, sn@),
            Option::None => show_id + " (no display name)"@,
        },
        Option::None => show_id + " (Unknown)"@,
    }
}

/// The display name of a show, resolved through the `shows` table.
pub fn localized_string_show_id(assets: &FGExtraDataAssets, show_id: &str) -> (r: String)
    ensures
        r@ == show_display_name_spec(assets.shows@, assets.localized_strings@, show_id@),
{
    match table_find(&assets.shows, show_id) {
        Some(item) => match &item.show_name {
            Some(sn) => localized_string(assets, sn.as_str()),
            None => String::from_str(show_id).concat(" (no display name)"),
        },
        None => String::from_str(show_id).concat(" (Unknown)"),
    }
}

} // verus!
