use icon_cache::settings::Settings;
use icon_cache::utils::{cache_path, get_unix_msec, log_path, path_to, settings_path};

#[test]
fn default_settings_values() {
    let s = Settings::default();
    assert!(s.browsers.is_empty());
    assert_eq!(s.cols, 3);
    assert_eq!(s.rows, 2);
    assert_eq!(s.cache_expire_days, 7);
}

#[test]
fn paths_join_base_dir() {
    assert_eq!(path_to("base", "x.txt"), "base/x.txt");
    assert_eq!(settings_path("/opt/app"), "/opt/app/settings.json");
    assert_eq!(cache_path("."), "./cache");
    assert_eq!(log_path("d"), "d/output.log");
}

#[test]
fn clock_is_past_2020() {
    assert!(get_unix_msec() > 1_577_836_800_000);
}
