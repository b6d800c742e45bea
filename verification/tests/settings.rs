use esphome_desktop::settings::{default_port, default_true, Settings, DEFAULT_PORT};

#[test]
fn the_defaults_are_the_documented_ones() {
    assert_eq!(default_port(), 6052);
    assert_eq!(DEFAULT_PORT, 6052);
    assert!(default_true());
    assert_eq!(
        Settings::default(),
        Settings {
            port: 6052,
            config_dir: None,
            open_on_start: true,
            check_updates: true,
            installed_version: None,
        }
    );
}

#[test]
fn load_falls_back_to_the_defaults() {
    assert_eq!(Settings::load(None, None), Settings::default());
    assert_eq!(
        Settings::load(None, Some("2024.1.0".to_string())),
        Settings { installed_version: Some("2024.1.0".to_string()), ..Settings::default() }
    );
}

#[test]
fn load_keeps_what_was_stored_but_the_version() {
    let stored = Settings {
        port: 8080,
        config_dir: Some("/srv/devices".to_string()),
        open_on_start: false,
        check_updates: false,
        installed_version: Some("stale".to_string()),
    };
    assert_eq!(
        Settings::load(Some(stored.clone()), Some("2024.2.0".to_string())),
        Settings { installed_version: Some("2024.2.0".to_string()), ..stored.clone() }
    );
    assert_eq!(
        Settings::load(Some(stored.clone()), None),
        Settings { installed_version: None, ..stored }
    );
}
