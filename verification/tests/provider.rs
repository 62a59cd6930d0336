use lola::source_provider::cache_manager::CacheManager;
use lola::source_provider::opgg::{
    champion_url, extract_champion_data, is_illegal_for_opgg, mode_as_opgg,
    sanitize_champion_name, FetchPlan, OPGG,
};
use lola::source_provider::{FetchMode, GameMode, Lane};

/// A miniature source page state blob in the shape the scraper finds.
fn sample_next_data() -> String {
    let mut doc = String::new();
    doc.push_str("{\"props\":{\"pageProps\":{\"data\":{");
    doc.push_str("\"runes\":[");
    doc.push_str("{\"id\":101,\"primary_page_id\":8100,\"primary_rune_ids\":[1,2,3,4],");
    doc.push_str("\"secondary_page_id\":8300,\"secondary_rune_ids\":[5,6],");
    doc.push_str("\"stat_mod_ids\":[7,8,9],\"play\":100,\"win\":52,\"pick_rate\":0.5},");
    doc.push_str("{\"id\":102,\"primary_page_id\":8200,\"primary_rune_ids\":[9,8,7,6],");
    doc.push_str("\"secondary_page_id\":8400,\"secondary_rune_ids\":[5,4],");
    doc.push_str("\"stat_mod_ids\":[3,2,1],\"play\":0,\"win\":0,\"pick_rate\":0.1}");
    doc.push_str("],");
    doc.push_str("\"summoner_spells\":[");
    doc.push_str("{\"ids\":[4,14],\"win\":60,\"play\":120,\"pick_rate\":0.9}");
    doc.push_str("]}}}}");
    doc
}

#[test]
fn sanitize_strips_apostrophe_and_whitespace() {
    assert_eq!(sanitize_champion_name("Kai'Sa"), "KaiSa");
    assert_eq!(sanitize_champion_name(" Kai Sa\t"), "KaiSa");
    assert_eq!(sanitize_champion_name("Ahri"), "Ahri");
    assert_eq!(sanitize_champion_name(""), "");
}

#[test]
fn illegal_characters_for_the_source() {
    assert!(is_illegal_for_opgg(&'\''));
    assert!(is_illegal_for_opgg(&' '));
    assert!(is_illegal_for_opgg(&'\t'));
    assert!(!is_illegal_for_opgg(&'K'));
}

#[test]
fn mode_path_segments() {
    assert_eq!(mode_as_opgg(GameMode::Classic), "champions");
    assert_eq!(mode_as_opgg(GameMode::Aram), "modes/aram");
    assert_eq!(mode_as_opgg(GameMode::Urf), "modes/urf");
}

#[test]
fn classic_url_includes_lane() {
    assert_eq!(
        champion_url("Kai'Sa", Lane::Bot, GameMode::Classic),
        "https://www.op.gg/champions/KaiSa/bot/build"
    );
}

#[test]
fn rotation_urls_omit_lane() {
    assert_eq!(
        champion_url("Kai'Sa", Lane::Bot, GameMode::Aram),
        "https://www.op.gg/modes/aram/KaiSa/build"
    );
    assert_eq!(
        champion_url("Ahri", Lane::Mid, GameMode::Urf),
        "https://www.op.gg/modes/urf/Ahri/build"
    );
}

#[test]
fn page_extraction_finds_the_state_blob() {
    let html = "<html><body><script id=\"__NEXT_DATA__\">{\"x\":1}</script></body></html>";
    assert_eq!(extract_champion_data(html).unwrap(), "{\"x\":1}");
}

#[test]
fn page_without_state_blob_is_an_error() {
    let err = extract_champion_data("<html><body>nothing here</body></html>").unwrap_err();
    assert_eq!(err, "No found 'script#__NEXT_DATA__' element!");
}

#[test]
fn format_data_keeps_only_runes_and_spells() {
    let provider = OPGG::new(CacheManager::new());
    let doc = "{\"props\":{\"pageProps\":{\"data\":{\
               \"runes\":[{\"id\":1}],\"summoner_spells\":[{\"ids\":[4]}],\
               \"other\":true}}},\"junk\":1}";
    let formatted = provider.format_data(doc).unwrap();
    let v: serde_json::Value = serde_json::from_str(&formatted).unwrap();
    assert_eq!(v["props"]["pageProps"]["data"]["runes"][0]["id"].as_i64(), Some(1));
    assert_eq!(
        v["props"]["pageProps"]["data"]["summoner_spells"][0]["ids"][0].as_i64(),
        Some(4)
    );
    assert!(v["props"]["pageProps"]["data"].get("other").is_none());
}

#[test]
fn format_data_rejects_a_page_that_is_not_json() {
    let provider = OPGG::new(CacheManager::new());
    let err = provider.format_data("this is not json").unwrap_err();
    assert_eq!(err, "Create runes finder failed!");
}

#[test]
fn online_mode_always_plans_live_without_cache_write() {
    let mut provider = OPGG::new(CacheManager::new());
    provider.set_fetch_mode(FetchMode::Online);
    assert!(matches!(provider.fetch_mode(), FetchMode::Online));
    let plan = provider.plan_champion_info("Ahri", Lane::Mid, GameMode::Classic, 1000);
    assert_eq!(plan, FetchPlan::Live { update_cache: false });
    let (info, write) = provider
        .complete_champion_info(
            "Ahri",
            Lane::Mid,
            GameMode::Classic,
            1000,
            Ok(sample_next_data()),
        )
        .unwrap();
    assert!(write.is_none());
    assert!(!info.is_cache());
    // online mode bypassed the cache entirely
    assert!(provider.plan_champion_info("Ahri", Lane::Mid, GameMode::Classic, 1000)
        == FetchPlan::Live { update_cache: false });
}

#[test]
fn unseen_key_plans_live_fetch_in_auto_mode() {
    let provider = OPGG::new(CacheManager::new());
    let plan = provider.plan_champion_info("Ahri", Lane::Mid, GameMode::Classic, 1000);
    assert_eq!(plan, FetchPlan::Live { update_cache: true });
}

#[test]
fn failed_live_fetch_leaves_the_cache_untouched() {
    let mut provider = OPGG::new(CacheManager::new());
    let now = 1_700_000_000;
    let err = provider
        .complete_champion_info(
            "Ahri",
            Lane::Mid,
            GameMode::Classic,
            now,
            Err("Get request error: connection refused".to_string()),
        )
        .unwrap_err();
    assert_eq!(err, "Get request error: connection refused");
    // the key is still unseen: stale, and nothing cached
    assert_eq!(
        provider.plan_champion_info("Ahri", Lane::Mid, GameMode::Classic, now),
        FetchPlan::Live { update_cache: true }
    );
    assert!(provider.get_cached_champion_info("Ahri", Lane::Mid, GameMode::Classic).is_err());
}

#[test]
fn failed_refresh_keeps_the_previous_snapshot() {
    let mut provider = OPGG::new(CacheManager::new());
    let now = 1_700_000_000;
    provider
        .complete_champion_info("Ahri", Lane::Mid, GameMode::Classic, now, Ok(sample_next_data()))
        .unwrap();
    let before = provider
        .get_cached_champion_info("Ahri", Lane::Mid, GameMode::Classic)
        .unwrap()
        .get_runes()
        .unwrap();
    provider
        .complete_champion_info(
            "Ahri",
            Lane::Mid,
            GameMode::Classic,
            now + 10,
            Err("network down".to_string()),
        )
        .unwrap_err();
    let after = provider
        .get_cached_champion_info("Ahri", Lane::Mid, GameMode::Classic)
        .unwrap()
        .get_runes()
        .unwrap();
    assert_eq!(before, after);
}

#[test]
fn first_fetch_live_then_cache_with_identical_content() {
    // key ("Ahri", Mid, Classic), expiry 3 days, manifest empty
    let mut provider = OPGG::new(CacheManager::new());
    provider.set_expired(3);
    assert_eq!(provider.get_expired(), 3);
    let now = 1_700_000_000;

    // first lookup: stale, so a live fetch with a cache write
    let plan = provider.plan_champion_info("Ahri", Lane::Mid, GameMode::Classic, now);
    assert_eq!(plan, FetchPlan::Live { update_cache: true });
    let (first, write) = provider
        .complete_champion_info("Ahri", Lane::Mid, GameMode::Classic, now, Ok(sample_next_data()))
        .unwrap();
    assert!(!first.is_cache());
    let write = write.unwrap();
    assert_eq!(write.snapshot_file, "Ahri-Mid-Classic.txt");
    assert!(write.manifest_data.contains("Ahri-Mid-Classic"));

    // second lookup with the clock unchanged: served from the cache
    let plan2 = provider.plan_champion_info("Ahri", Lane::Mid, GameMode::Classic, now);
    assert_eq!(plan2, FetchPlan::Cached);
    let second = provider
        .get_cached_champion_info("Ahri", Lane::Mid, GameMode::Classic)
        .unwrap();
    assert!(second.is_cache());
    assert_eq!(first.get_runes().unwrap(), second.get_runes().unwrap());
    assert_eq!(first.get_spells().unwrap(), second.get_spells().unwrap());
}

#[test]
fn rune_names_carry_champion_lane_and_win_rate() {
    let mut provider = OPGG::new(CacheManager::new());
    provider.set_fetch_mode(FetchMode::Online);
    let (info, _) = provider
        .complete_champion_info(
            "Ahri",
            Lane::Mid,
            GameMode::Classic,
            1000,
            Ok(sample_next_data()),
        )
        .unwrap();
    let runes = info.get_runes().unwrap();
    assert_eq!(runes.len(), 2);
    assert_eq!(runes[0].name, "[Lola] Ahri-Mid (52%/100 games)");
    assert_eq!(runes[0].pick_rate, "0.5");
    assert_eq!(runes[0].id, 101);
    assert_eq!(runes[0].primary_rune_ids, vec![1, 2, 3, 4]);
    assert_eq!(runes[0].secondary_rune_ids, vec![5, 6]);
    assert_eq!(runes[0].stat_mod_ids, vec![7, 8, 9]);
    // a play count of zero reads as zero percent instead of failing
    assert_eq!(runes[1].name, "[Lola] Ahri-Mid (0%/0 games)");
}

#[test]
fn spells_decode_from_the_blob() {
    let mut provider = OPGG::new(CacheManager::new());
    provider.set_fetch_mode(FetchMode::Online);
    let (info, _) = provider
        .complete_champion_info(
            "Ahri",
            Lane::Mid,
            GameMode::Classic,
            1000,
            Ok(sample_next_data()),
        )
        .unwrap();
    let spells = info.get_spells().unwrap();
    assert_eq!(spells.len(), 1);
    assert_eq!(spells[0].ids, vec![4, 14]);
    assert_eq!(spells[0].win, 60);
    assert_eq!(spells[0].play, 120);
    assert_eq!(spells[0].pick_rate, "0.9");
    assert_eq!(info.get_lane(), Lane::Mid);
}

#[test]
fn a_malformed_rune_record_fails_the_whole_read() {
    let mut provider = OPGG::new(CacheManager::new());
    provider.set_fetch_mode(FetchMode::Online);
    // one record lacking most members: the read errors rather than guessing
    let doc = "{\"props\":{\"pageProps\":{\"data\":{\"runes\":[{\"id\":1}],\"summoner_spells\":[]}}}}";
    let (info, _) = provider
        .complete_champion_info("Ahri", Lane::Mid, GameMode::Classic, 1000, Ok(doc.to_string()))
        .unwrap();
    assert_eq!(info.get_runes().unwrap_err(), "Convert runes data error!");
    // the path engine reports an empty section as no match at all
    assert_eq!(info.get_spells().unwrap_err(), "Create spells finder failed!");
}

#[test]
fn runes_of_a_blob_without_rune_section_are_an_error() {
    let mut provider = OPGG::new(CacheManager::new());
    provider.set_fetch_mode(FetchMode::Online);
    let (info, _) = provider
        .complete_champion_info(
            "Ahri",
            Lane::Mid,
            GameMode::Classic,
            1000,
            Ok("{\"props\":{}}".to_string()),
        )
        .unwrap();
    assert_eq!(info.get_runes().unwrap_err(), "Create runes finder failed!");
    assert_eq!(info.get_spells().unwrap_err(), "Create spells finder failed!");
}

#[test]
fn clear_cache_resets_the_provider() {
    let mut provider = OPGG::new(CacheManager::new());
    let now = 1_700_000_000;
    provider
        .complete_champion_info("Ahri", Lane::Mid, GameMode::Classic, now, Ok(sample_next_data()))
        .unwrap();
    assert_eq!(
        provider.plan_champion_info("Ahri", Lane::Mid, GameMode::Classic, now),
        FetchPlan::Cached
    );
    provider.clear_cache();
    assert_eq!(
        provider.plan_champion_info("Ahri", Lane::Mid, GameMode::Classic, now),
        FetchPlan::Live { update_cache: true }
    );
    assert!(provider.get_cached_champion_info("Ahri", Lane::Mid, GameMode::Classic).is_err());
}
