use voicefox::config_migration::{migrate_legacy_config, LegacyConfig, SourceCode, LAST_MIGRATED_VERSION};
use voicefox::pages::status_bar::StatusBarItem;

fn current_defaults() -> Vec<SourceCode> {
    vec![
        SourceCode::Kw,
        SourceCode::Kg,
        SourceCode::Tx,
        SourceCode::Wy,
        SourceCode::Mg,
        SourceCode::Bili,
        SourceCode::Qianqian,
        SourceCode::Joox,
        SourceCode::Fivesing,
        SourceCode::Jamendo,
        SourceCode::Soda,
    ]
}

fn config(version: u32) -> LegacyConfig {
    LegacyConfig {
        version,
        theme_accent: "#cba6f7".to_string(),
        theme_text: "#cdd6f4".to_string(),
        theme_muted: "#6c7086".to_string(),
        theme_border: "#45475a".to_string(),
        sources: current_defaults(),
        local_paths: 0,
        local_enabled: true,
        show_notifications: None,
        notification_timeout: None,
        in_app: true,
        in_app_timeout: 5,
        history_limit: 100,
        status_bar: vec![StatusBarItem::State, StatusBarItem::Song],
    }
}

#[test]
fn migrates_the_original_default_theme_to_mocha() {
    let mut c = config(0);
    c.theme_accent = "cyan".to_string();
    c.theme_text = "white".to_string();
    c.theme_muted = "dark_gray".to_string();
    c.theme_border = "CYAN".to_string();
    let m = migrate_legacy_config(&mut c);
    assert!(m.reset_theme);
    assert!(m.changed);
    let mut custom = config(0);
    custom.theme_accent = "cyan".to_string();
    assert!(!migrate_legacy_config(&mut custom).reset_theme);
}

#[test]
fn expands_the_original_kw_only_source_default_once() {
    let mut c = config(0);
    c.sources = vec![SourceCode::Kw];
    assert!(migrate_legacy_config(&mut c).changed);
    assert_eq!(c.version, LAST_MIGRATED_VERSION);
    assert_eq!(c.sources, current_defaults());

    c.sources = vec![SourceCode::Kw];
    assert!(!migrate_legacy_config(&mut c).changed);
    assert_eq!(c.sources, vec![SourceCode::Kw]);
}

#[test]
fn preserves_a_custom_source_selection_during_version_two_migration() {
    let mut c = config(1);
    c.sources = vec![SourceCode::Kg, SourceCode::Wy];
    assert!(migrate_legacy_config(&mut c).changed);
    assert_eq!(c.version, LAST_MIGRATED_VERSION);
    assert_eq!(c.sources, vec![SourceCode::Kg, SourceCode::Wy]);
}

#[test]
fn reenables_existing_local_music_paths_during_version_three_migration() {
    let mut c = config(2);
    c.local_paths = 1;
    c.local_enabled = false;
    assert!(migrate_legacy_config(&mut c).changed);
    assert_eq!(c.version, LAST_MIGRATED_VERSION);
    assert!(c.local_enabled);
}

#[test]
fn preserves_local_music_disable_after_version_three_migration() {
    let mut c = config(LAST_MIGRATED_VERSION);
    c.local_paths = 1;
    c.local_enabled = false;
    assert!(!migrate_legacy_config(&mut c).changed);
    assert!(!c.local_enabled);
}

#[test]
fn migrates_legacy_ui_notification_options() {
    let mut c = config(3);
    c.show_notifications = Some(false);
    c.notification_timeout = Some(9);
    assert!(migrate_legacy_config(&mut c).changed);
    assert_eq!(c.version, LAST_MIGRATED_VERSION);
    assert!(!c.in_app);
    assert_eq!(c.in_app_timeout, 9);
    assert_eq!(c.show_notifications, None);
    assert_eq!(c.notification_timeout, None);
}

#[test]
fn migrates_history_limit_to_a_positive_value() {
    let mut c = config(4);
    c.history_limit = 0;
    assert!(migrate_legacy_config(&mut c).changed);
    assert_eq!(c.version, LAST_MIGRATED_VERSION);
    assert_eq!(c.history_limit, 1);
}

#[test]
fn migrates_version_eight_settings_shortcuts_away_from_tab_numbers() {
    let mut c = config(8);
    let m = migrate_legacy_config(&mut c);
    assert!(m.changed);
    assert!(m.migrate_settings_bindings);
    assert_eq!(c.version, LAST_MIGRATED_VERSION);
    assert!(!migrate_legacy_config(&mut c).migrate_settings_bindings);
}

#[test]
fn migration_preserves_status_bar_order_and_removes_duplicates() {
    let mut c = config(LAST_MIGRATED_VERSION);
    c.status_bar = vec![StatusBarItem::Source, StatusBarItem::Song, StatusBarItem::Source];
    assert!(migrate_legacy_config(&mut c).changed);
    assert_eq!(c.status_bar, vec![StatusBarItem::Source, StatusBarItem::Song]);
}

#[test]
fn later_releases_add_their_source_to_untouched_lists() {
    let mut c = config(10);
    c.sources = vec![SourceCode::Kw, SourceCode::Kg, SourceCode::Tx, SourceCode::Wy, SourceCode::Mg, SourceCode::Bili];
    assert!(migrate_legacy_config(&mut c).changed);
    assert_eq!(c.sources, current_defaults());
    let mut reordered = config(13);
    reordered.sources = vec![SourceCode::Bili, SourceCode::Kw, SourceCode::Kg, SourceCode::Tx, SourceCode::Wy, SourceCode::Mg, SourceCode::Qianqian, SourceCode::Joox, SourceCode::Fivesing];
    let _ = migrate_legacy_config(&mut reordered);
    assert_eq!(reordered.sources.len(), 11);
}
