use fglog::assets::initialize_extra_data_assets;
use fglog::assets::localized_string;
use fglog::assets::localized_string_round_id;
use fglog::assets::localized_string_show_id;
use fglog::assets::FGExtraDataAssets;
use fglog::assets::FGExtraDataLevelsRoundItem;
use fglog::assets::FGExtraDataLocalizedStringsItem;
use fglog::common::FGRoundInfo;

fn sample_level(id: &str, display_name: Option<&str>) -> FGExtraDataLevelsRoundItem {
    FGExtraDataLevelsRoundItem {
        id: id.to_owned(),
        display_name: display_name.map(|s| s.to_owned()),
        game_rules: String::new(),
        round_info: None,
        main_ambience_state: String::new(),
        loading_screen_name: String::new(),
        level_badge_name: String::new(),
        tags: Vec::new(),
        level_archetype: String::new(),
        fall_feed: None,
    }
}

fn sample_assets() -> FGExtraDataAssets {
    let strings = vec![
        FGExtraDataLocalizedStringsItem {
            id: "ranked_show_knockout".to_owned(),
            text: "Ranked Knockout".to_owned(),
        },
        FGExtraDataLocalizedStringsItem {
            id: "tunnel_name".to_owned(),
            text: "The Tunnel".to_owned(),
        },
    ];
    let levels = vec![
        sample_level("round_tunnel_40", Some("tunnel_name")),
        sample_level("round_nameless", None),
    ];
    initialize_extra_data_assets(Vec::new(), levels, strings, Vec::new())
}

#[test]
fn test_init_assets() {
    initialize_extra_data_assets(Vec::new(), Vec::new(), Vec::new(), Vec::new());
}

#[test]
fn get_localized_string_text() {
    let assets = sample_assets();
    assert_eq!(localized_string(&assets, "ranked_show_knockout"), "Ranked Knockout");
    assert_eq!(
        localized_string(&assets, "localised_strings.ranked_show_knockout"),
        "Ranked Knockout"
    );
}

#[test]
fn duplicate_ids_resolve_to_the_newest_entry() {
    // repeated ids overwrite earlier ones, as keyed insertion would
    let strings = vec![
        FGExtraDataLocalizedStringsItem { id: "twice".to_owned(), text: "old".to_owned() },
        FGExtraDataLocalizedStringsItem { id: "twice".to_owned(), text: "new".to_owned() },
    ];
    let assets = initialize_extra_data_assets(Vec::new(), Vec::new(), strings, Vec::new());
    assert_eq!(localized_string(&assets, "twice"), "new");
}

#[test]
fn localized_string_miss_is_marked() {
    let assets = sample_assets();
    assert_eq!(localized_string(&assets, "no_such_key"), "unknown_localized_key.no_such_key");
}

#[test]
fn round_display_name_resolves_through_tables() {
    let assets = sample_assets();
    assert_eq!(localized_string_round_id(&assets, "round_tunnel_40"), "The Tunnel");
    assert_eq!(
        localized_string_round_id(&assets, "round_nameless"),
        "round_nameless (no display name)"
    );
    assert_eq!(localized_string_round_id(&assets, "round_missing"), "round_missing (Unknown)");
}

#[test]
fn show_display_name_miss_is_marked() {
    let assets = sample_assets();
    assert_eq!(localized_string_show_id(&assets, "no_show"), "no_show (Unknown)");
}

#[test]
fn round_info_creative_bypasses_lookup() {
    let assets = sample_assets();
    let info = FGRoundInfo::from_str_id("ugc-0123-4567", &assets);
    assert_eq!(info.id, "ugc-0123-4567");
    assert_eq!(info.display_name, "Creative: ugc-0123-4567");
}

#[test]
fn round_info_resolves_display_name() {
    let assets = sample_assets();
    let info = FGRoundInfo::from_str_id("round_tunnel_40", &assets);
    assert_eq!(info.display_name, "The Tunnel");
}
