use stswatcher::settings::build_settings;
use stswatcher::settings::SettingsError;
use stswatcher::setup::initialize_watcher;
use stswatcher::setup::savefile_names;
use stswatcher::setup::saves_directory;
use stswatcher::setup::target_path;
use stswatcher::WatchState;

#[test]
fn settings_complete() {
    let settings = build_settings(
        Some("key".to_string()),
        Some("/opt/sts".to_string()),
        Some("https://example.invalid/update".to_string()),
    )
    .unwrap();
    assert_eq!(settings.backend_api_key, "key");
    assert_eq!(settings.sts_directory, "/opt/sts");
    assert_eq!(settings.server_addr, "https://example.invalid/update");
}

#[test]
fn settings_missing_keys() {
    let err = build_settings(None, Some("d".to_string()), Some("a".to_string())).unwrap_err();
    assert_eq!(err, SettingsError::MissingApiKey);
    assert_eq!(err.message(), "Missing setting `backend_api_key`");

    let err = build_settings(Some("k".to_string()), None, Some("a".to_string())).unwrap_err();
    assert_eq!(err, SettingsError::MissingStsDirectory);
    assert_eq!(err.message(), "Missing setting `sts_directory`");

    let err = build_settings(Some("k".to_string()), Some("d".to_string()), None).unwrap_err();
    assert_eq!(err, SettingsError::MissingServerAddr);
    assert_eq!(err.message(), "Missing setting `server_addr`");

    // The first missing key (in checking order) is the one reported.
    let err = build_settings(None, None, None).unwrap_err();
    assert_eq!(err, SettingsError::MissingApiKey);
}

#[test]
fn standard_save_paths() {
    let names = savefile_names();
    assert_eq!(
        names,
        vec!["IRONCLAD.autosave", "DEFECT.autosave", "THE_SILENT.autosave"]
    );

    let dir = saves_directory(&"/opt/sts".to_string());
    assert_eq!(dir, "/opt/sts/saves");

    let path = target_path(&dir, &"IRONCLAD.autosave".to_string());
    assert_eq!(path, "/opt/sts/saves/IRONCLAD.autosave");
}

#[test]
fn initialized_watcher_targets() {
    let dir = "/opt/sts/saves".to_string();
    let watcher = initialize_watcher(&dir);
    assert_eq!(watcher.len(), 3);
    assert_eq!(
        watcher.get_path(0).map(|p| p.as_str()),
        Some("/opt/sts/saves/IRONCLAD.autosave")
    );
    assert_eq!(
        watcher.get_path(1).map(|p| p.as_str()),
        Some("/opt/sts/saves/DEFECT.autosave")
    );
    assert_eq!(
        watcher.get_path(2).map(|p| p.as_str()),
        Some("/opt/sts/saves/THE_SILENT.autosave")
    );
    for i in 0..3 {
        assert_eq!(watcher.get_state(i), Some(WatchState::Absent));
    }
    assert_eq!(watcher.get_state(3), None);
}
