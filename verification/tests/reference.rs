use lola::app_config::AppConfig;
use lola::app_status::AppStatus;
use lola::custom_provider::CustomProvider;
use lola::ddragon::{build_champions, latest_version, DDragon, Language};
use lola::source_provider::cache_manager::CacheManager;
use lola::source_provider::opgg::OPGG;
use lola::source_provider::{FetchMode, GameMode, Lane, LolRuneItem, RuneItem};

fn strings(list: &[&str]) -> Vec<String> {
    list.iter().map(|s| s.to_string()).collect()
}

fn sample_lol_rune(name: &str, perks: Vec<i32>) -> LolRuneItem {
    LolRuneItem {
        auto_modified_selections: Vec::new(),
        current: true,
        id: 7,
        is_active: true,
        is_deletable: true,
        is_editable: true,
        is_valid: true,
        last_modified: 0,
        name: name.to_string(),
        order: 0,
        primary_style_id: 8100,
        selected_perk_ids: perks,
        sub_style_id: 8300,
    }
}

#[test]
fn lane_names_round_trip() {
    assert!(matches!(Lane::from_str("TOP"), Ok(Lane::Top)));
    assert!(matches!(Lane::from_str("mid"), Ok(Lane::Mid)));
    assert!(matches!(Lane::from_str("adc"), Ok(Lane::Bot)));
    assert!(matches!(Lane::from_str("Bot"), Ok(Lane::Bot)));
    assert!(matches!(Lane::from_str("sp"), Ok(Lane::Support)));
    assert!(matches!(Lane::from_str("Support"), Ok(Lane::Support)));
    assert!(matches!(Lane::from_str("JG"), Ok(Lane::Jungle)));
    assert_eq!(Lane::from_str("laneless").unwrap_err(), "It not a true lane!");
    assert_eq!(Lane::Support.to_name(), "support");
    assert_eq!(Lane::Support.to_key_name(), "Support");
}

#[test]
fn game_mode_names() {
    assert!(matches!(GameMode::from_str("aram"), GameMode::Aram));
    assert!(matches!(GameMode::from_str("URF"), GameMode::Urf));
    assert!(matches!(GameMode::from_str("CLASSIC"), GameMode::Classic));
    // anything unknown counts as the classic mode
    assert!(matches!(GameMode::from_str("whatever"), GameMode::Classic));
    assert_eq!(GameMode::Aram.to_name(), "ARAM");
    assert_eq!(GameMode::Aram.to_key_name(), "Aram");
}

#[test]
fn rune_item_reshapes_nine_perks() {
    let lol = sample_lol_rune("mine", vec![1, 2, 3, 4, 5, 6, 7, 8, 9]);
    let item = RuneItem::from_lol(&lol).unwrap();
    assert_eq!(item.primary_rune_ids, vec![1, 2, 3, 4]);
    assert_eq!(item.secondary_rune_ids, vec![5, 6]);
    assert_eq!(item.stat_mod_ids, vec![7, 8, 9]);
    assert_eq!(item.primary_page_id, 8100);
    assert_eq!(item.secondary_page_id, 8300);
    assert_eq!(item.name, "mine");
    assert_eq!(item.play, 0);
    assert_eq!(item.win, 0);
    assert_eq!(item.pick_rate, "0.0");
}

#[test]
fn rune_item_rejects_short_perk_lists() {
    let lol = sample_lol_rune("short", vec![1, 2, 3]);
    assert!(RuneItem::from_lol(&lol).is_none());
}

#[test]
fn custom_file_name_scheme() {
    assert_eq!(
        CustomProvider::get_file_name("Ahri", GameMode::Classic),
        "Ahri-Classic-runes.json"
    );
    assert_eq!(CustomProvider::get_file_name("Zed", GameMode::Urf), "Zed-Urf-runes.json");
}

#[test]
fn custom_rune_add_rejects_duplicate_names() {
    let mut runes = Vec::new();
    assert!(CustomProvider::add_rune(&mut runes, sample_lol_rune("a", vec![1; 9])));
    assert!(CustomProvider::add_rune(&mut runes, sample_lol_rune("b", vec![2; 9])));
    assert!(!CustomProvider::add_rune(&mut runes, sample_lol_rune("a", vec![3; 9])));
    assert_eq!(runes.len(), 2);
}

#[test]
fn custom_rune_remove_takes_first_match() {
    let mut runes = vec![
        sample_lol_rune("a", vec![1; 9]),
        sample_lol_rune("b", vec![2; 9]),
        sample_lol_rune("a", vec![3; 9]),
    ];
    assert!(CustomProvider::remove_rune(&mut runes, "a"));
    assert_eq!(runes.len(), 2);
    assert_eq!(runes[0].name, "b");
    assert_eq!(runes[1].name, "a");
    assert!(!CustomProvider::remove_rune(&mut runes, "missing"));
    assert_eq!(runes.len(), 2);
}

#[test]
fn custom_runes_convert_or_fail_together() {
    let good = vec![sample_lol_rune("a", vec![1, 2, 3, 4, 5, 6, 7, 8, 9])];
    let items = CustomProvider::champion_runes_from(&good).unwrap();
    assert_eq!(items.len(), 1);
    assert_eq!(items[0].stat_mod_ids, vec![7, 8, 9]);
    let bad = vec![sample_lol_rune("a", vec![1; 9]), sample_lol_rune("b", vec![1, 2])];
    assert!(CustomProvider::champion_runes_from(&bad).is_err());
}

#[test]
fn latest_version_is_the_first_entry() {
    let versions = strings(&["14.1.1", "13.24.1"]);
    assert_eq!(latest_version(&versions).unwrap(), "14.1.1");
    assert_eq!(
        latest_version(&Vec::new()).unwrap_err(),
        "get versions array but it length is zero."
    );
}

#[test]
fn champion_table_lookup_by_key() {
    let champions = build_champions(
        &strings(&["Ahri", "Kai'Sa"]),
        &strings(&["Ahri", "Kaisa"]),
        &strings(&["103", "145"]),
    )
    .unwrap();
    let ddragon = DDragon::from_parts("14.1.1".to_string(), champions, Language::en_US);
    let found = ddragon.get_champion_information("145").unwrap();
    assert_eq!(found.name, "Kai'Sa");
    assert_eq!(found.id, "Kaisa");
    assert_eq!(
        ddragon.get_champion_information("999").unwrap_err(),
        "Key value 999 no match with ddragon!"
    );
    assert_eq!(ddragon.get_version(), "14.1.1");
}

#[test]
fn champion_table_requires_matching_columns() {
    let err = build_champions(
        &strings(&["Ahri"]),
        &strings(&["Ahri", "Extra"]),
        &strings(&["103"]),
    )
    .unwrap_err();
    assert_eq!(err, "Champions name, id and key length is no same!");
}

#[test]
fn language_codes() {
    assert_eq!(Language::en_US.code(), "en_US");
    assert_eq!(Language::zh_TW.code(), "zh_TW");
}

#[test]
fn app_status_starts_unloaded() {
    assert!(!AppStatus::default().lcu_loaded);
}

#[test]
fn app_config_defaults_and_invoke() {
    let config = AppConfig::new();
    assert!(matches!(config.fetch_mode, FetchMode::Auto));
    assert_eq!(config.expired_days, 3);
    assert_eq!(AppConfig::default_expired(), 3);
    assert!(!config.auto_select_lane);
    assert!(!config.mini_mode);

    let mut tuned = config;
    tuned.fetch_mode = FetchMode::Online;
    tuned.expired_days = 7;
    let mut provider = OPGG::new(CacheManager::new());
    tuned.invoke(&mut provider);
    assert!(matches!(provider.fetch_mode(), FetchMode::Online));
    assert_eq!(provider.get_expired(), 7);
}

#[test]
fn fetch_mode_defaults_to_auto() {
    assert!(matches!(FetchMode::default(), FetchMode::Auto));
}
