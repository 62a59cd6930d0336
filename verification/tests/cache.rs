use lola::source_provider::cache_manager::{CacheManager, ChampionCacheInfo};
use lola::source_provider::{GameMode, Lane};

#[test]
fn unknown_key_is_stale() {
    let cm = CacheManager::new();
    assert!(cm.is_champion_data_old("Ahri", Lane::Mid, GameMode::Classic, 1_700_000_000));
    assert!(cm.is_champion_data_old("Zed", Lane::Top, GameMode::Aram, 0));
}

#[test]
fn fresh_key_is_not_stale_within_window() {
    let mut cm = CacheManager::new();
    let t = 1_700_000_000;
    cm.update_champion("Ahri", Lane::Mid, GameMode::Classic, "DATA", t);
    // default expiry is 3 days
    assert!(!cm.is_champion_data_old("Ahri", Lane::Mid, GameMode::Classic, t));
    assert!(!cm.is_champion_data_old("Ahri", Lane::Mid, GameMode::Classic, t + 3 * 86400 - 1));
    assert!(cm.is_champion_data_old("Ahri", Lane::Mid, GameMode::Classic, t + 3 * 86400));
}

#[test]
fn expiry_window_is_configurable() {
    let mut cm = CacheManager::new();
    assert_eq!(cm.get_expired(), 3);
    cm.set_expired(1);
    assert_eq!(cm.get_expired(), 1);
    let t = 1_700_000_000;
    cm.update_champion("Ahri", Lane::Mid, GameMode::Classic, "DATA", t);
    assert!(!cm.is_champion_data_old("Ahri", Lane::Mid, GameMode::Classic, t + 86399));
    assert!(cm.is_champion_data_old("Ahri", Lane::Mid, GameMode::Classic, t + 86400));
}

#[test]
fn snapshot_round_trip_is_byte_identical() {
    let mut cm = CacheManager::new();
    let payload = "{\"props\":{\"pageProps\":{\"data\":{\"runes\":[1,2,3]}}}}";
    cm.update_champion("Ahri", Lane::Mid, GameMode::Classic, payload, 1000);
    let back = cm.get_champion_data("Ahri", Lane::Mid, GameMode::Classic).unwrap();
    assert_eq!(back, payload);
}

#[test]
fn missing_snapshot_is_an_error() {
    let cm = CacheManager::new();
    let err = cm.get_champion_data("Ahri", Lane::Mid, GameMode::Classic).unwrap_err();
    assert_eq!(err, "cache file no exists!");
}

#[test]
fn update_overwrites_snapshot_and_timestamp() {
    let mut cm = CacheManager::new();
    cm.update_champion("Ahri", Lane::Mid, GameMode::Classic, "OLD", 1000);
    cm.update_champion("Ahri", Lane::Mid, GameMode::Classic, "NEW", 2000);
    assert_eq!(
        cm.get_champion_data("Ahri", Lane::Mid, GameMode::Classic).unwrap(),
        "NEW"
    );
    assert_eq!(
        cm.save_cache_log(),
        "{\"champions\":[{\"name_with_lane\":\"Ahri-Mid-Classic\",\"last_modified\":2000}]}"
    );
}

#[test]
fn update_keeps_other_keys_untouched() {
    let mut cm = CacheManager::new();
    cm.update_champion("Ahri", Lane::Mid, GameMode::Classic, "A", 1000);
    cm.update_champion("Zed", Lane::Top, GameMode::Classic, "Z", 2000);
    cm.update_champion("Ahri", Lane::Mid, GameMode::Classic, "A2", 3000);
    assert_eq!(cm.get_champion_data("Zed", Lane::Top, GameMode::Classic).unwrap(), "Z");
    assert_eq!(cm.get_champion_data("Ahri", Lane::Mid, GameMode::Classic).unwrap(), "A2");
}

#[test]
fn clear_cache_behaves_like_first_ever_lookup() {
    let mut cm = CacheManager::new();
    let t = 1_700_000_000;
    cm.update_champion("Ahri", Lane::Mid, GameMode::Classic, "DATA", t);
    assert!(!cm.is_champion_data_old("Ahri", Lane::Mid, GameMode::Classic, t));
    cm.clear_cache();
    assert!(cm.is_champion_data_old("Ahri", Lane::Mid, GameMode::Classic, t));
    assert!(cm.get_champion_data("Ahri", Lane::Mid, GameMode::Classic).is_err());
    assert_eq!(cm.save_cache_log(), "{\"champions\":[]}");
}

#[test]
fn manifest_serialization_is_exact() {
    let mut cm = CacheManager::new();
    cm.update_champion("Ahri", Lane::Mid, GameMode::Classic, "X", 1000);
    cm.update_champion("Zed", Lane::Top, GameMode::Urf, "Y", -5);
    assert_eq!(
        cm.save_cache_log(),
        "{\"champions\":[\
         {\"name_with_lane\":\"Ahri-Mid-Classic\",\"last_modified\":1000},\
         {\"name_with_lane\":\"Zed-Top-Urf\",\"last_modified\":-5}]}"
    );
}

#[test]
fn manifest_escapes_special_characters() {
    let mut cm = CacheManager::new();
    cm.update_champion("A\"b\\c", Lane::Bot, GameMode::Classic, "X", 7);
    let log = cm.save_cache_log();
    assert_eq!(
        log,
        "{\"champions\":[{\"name_with_lane\":\"A\\\"b\\\\c-Bot-Classic\",\"last_modified\":7}]}"
    );
    // the serialized manifest stays valid JSON
    let v: serde_json::Value = serde_json::from_str(&log).unwrap();
    assert_eq!(
        v["champions"][0]["name_with_lane"].as_str().unwrap(),
        "A\"b\\c-Bot-Classic"
    );
}

#[test]
fn manifest_round_trips_through_restore() {
    let mut cm = CacheManager::new();
    let t = 1_700_000_000;
    cm.update_champion("Ahri", Lane::Mid, GameMode::Classic, "DATA", t);
    let log = cm.save_cache_log();

    // what an application start-up does: parse the log and reload entries
    let v: serde_json::Value = serde_json::from_str(&log).unwrap();
    let mut reloaded = CacheManager::new();
    for champ in v["champions"].as_array().unwrap() {
        reloaded.restore_entry(
            champ["name_with_lane"].as_str().unwrap(),
            champ["last_modified"].as_i64().unwrap(),
        );
    }
    reloaded.restore_snapshot("Ahri-Mid-Classic.txt", "DATA");
    assert!(!reloaded.is_champion_data_old("Ahri", Lane::Mid, GameMode::Classic, t));
    assert_eq!(
        reloaded.get_champion_data("Ahri", Lane::Mid, GameMode::Classic).unwrap(),
        "DATA"
    );
}

#[test]
fn restore_keeps_first_occurrence() {
    let mut cm = CacheManager::new();
    cm.restore_entry("Ahri-Mid-Classic", 100);
    cm.restore_entry("Ahri-Mid-Classic", 999_999_999);
    // the first entry wins, so the key is stale far in the future
    assert!(cm.is_champion_data_old("Ahri", Lane::Mid, GameMode::Classic, 1_000_000_000));
    cm.restore_snapshot("f.txt", "ONE");
    cm.restore_snapshot("f.txt", "TWO");
    let log = cm.save_cache_log();
    assert_eq!(
        log,
        "{\"champions\":[{\"name_with_lane\":\"Ahri-Mid-Classic\",\"last_modified\":100}]}"
    );
}

#[test]
fn cache_info_file_names() {
    let info = ChampionCacheInfo::new("Kai'Sa", Lane::Bot, GameMode::Classic, 5);
    assert_eq!(info.get_file_name(), "Kai'Sa-Bot-Classic.txt");
    assert_eq!(
        ChampionCacheInfo::get_file_name_manual("Kai'Sa", Lane::Bot, GameMode::Classic),
        "Kai'Sa-Bot-Classic.txt"
    );
    assert!(info.is_same("Kai'Sa", Lane::Bot, GameMode::Classic));
    assert!(!info.is_same("Kai'Sa", Lane::Mid, GameMode::Classic));
}

#[test]
fn cache_info_expiry_arithmetic() {
    let mut info = ChampionCacheInfo::new("Ahri", Lane::Mid, GameMode::Classic, 1000);
    assert!(!info.is_expired(3, 1000 + 3 * 86400 - 1));
    assert!(info.is_expired(3, 1000 + 3 * 86400));
    info.update_last_modified(5000);
    assert!(!info.is_expired(3, 5000));
    // extreme values must not overflow
    assert!(!info.is_expired(i64::MAX, 5000));
    assert!(info.is_expired(i64::MIN, 5000));
}
