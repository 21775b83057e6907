use desktop_pet::model::AIConfig;
use desktop_pet::model::AppConfig;
use desktop_pet::model::AppearanceConfig;
use desktop_pet::store::parse_config;
use desktop_pet::store::ConfigError;
use desktop_pet::store::ConfigManager;

fn assert_config_eq(a: &AppConfig, b: &AppConfig) {
    assert_eq!(a.appearance.pet_size, b.appearance.pet_size);
    assert_eq!(a.appearance.pet_opacity_milli, b.appearance.pet_opacity_milli);
    assert_eq!(a.appearance.show_border, b.appearance.show_border);
    assert_eq!(a.ai.api_key, b.ai.api_key);
    assert_eq!(a.ai.base_url, b.ai.base_url);
    assert_eq!(a.ai.model, b.ai.model);
    assert_eq!(a.ai.temperature_milli, b.ai.temperature_milli);
    assert_eq!(a.ai.max_tokens, b.ai.max_tokens);
    assert_eq!(a.ai.system_prompt, b.ai.system_prompt);
    assert_eq!(a.window.main_window_x_milli, b.window.main_window_x_milli);
    assert_eq!(a.window.main_window_y_milli, b.window.main_window_y_milli);
    assert_eq!(a.window.settings_window_x_milli, b.window.settings_window_x_milli);
    assert_eq!(a.window.settings_window_y_milli, b.window.settings_window_y_milli);
    assert_eq!(a.window.settings_window_width_milli, b.window.settings_window_width_milli);
    assert_eq!(a.window.settings_window_height_milli, b.window.settings_window_height_milli);
}

#[test]
fn test_config_save_and_load() {
    let manager = ConfigManager::from_path("test_config.toml".to_string());
    let default_config = AppConfig::default();
    let bytes = manager.save(&default_config);
    let loaded = manager.load(Some(&bytes));
    assert_eq!(loaded.config.appearance.pet_size, 150);
    assert_eq!(loaded.config.ai.model, b"deepseek-chat".to_vec());
}

#[test]
fn test_default_bootstrap() {
    let manager = ConfigManager::from_path("config.toml".to_string());
    let first = manager.load(None);
    assert_config_eq(&first.config, &AppConfig::default());
    assert!(first.backup.is_none());
    let written = first.write_back.expect("bootstrap must persist the default");
    let second = manager.load(Some(&written));
    assert_config_eq(&second.config, &AppConfig::default());
    assert!(second.write_back.is_none());
    assert!(second.backup.is_none());
}

#[test]
fn test_corruption_recovery() {
    let manager = ConfigManager::from_path("config.toml".to_string());
    let junk = b"this is {{{ not a config @@@ \x01\xff garbage".to_vec();
    let outcome = manager.load(Some(&junk));
    assert_config_eq(&outcome.config, &AppConfig::default());
    assert_eq!(outcome.backup, Some(junk));
    let written = outcome.write_back.expect("recovery must persist the default");
    let reparsed = parse_config(&written).expect("recovered file must be valid");
    assert_config_eq(&reparsed, &AppConfig::default());
}

#[test]
fn test_update_atomicity() {
    let manager = ConfigManager::from_path("config.toml".to_string());
    let before = AppConfig::default();
    assert_eq!(before.appearance.pet_size, 150);
    let on_disk = manager.save(&before);
    let outcome = manager.update_appearance(
        Some(&on_disk),
        AppearanceConfig { pet_size: 200, pet_opacity_milli: 1000, show_border: true },
    );
    let reloaded = manager.load(Some(&outcome.bytes));
    assert_eq!(reloaded.config.get_appearance().pet_size, 200);
    assert_eq!(reloaded.config.ai.api_key, before.ai.api_key);
    assert_eq!(reloaded.config.ai.base_url, before.ai.base_url);
    assert_eq!(reloaded.config.ai.model, before.ai.model);
    assert_eq!(reloaded.config.ai.temperature_milli, before.ai.temperature_milli);
    assert_eq!(reloaded.config.ai.max_tokens, before.ai.max_tokens);
    assert_eq!(reloaded.config.ai.system_prompt, before.ai.system_prompt);
    assert_eq!(reloaded.config.window.main_window_x_milli, before.window.main_window_x_milli);
    assert_eq!(reloaded.config.window.main_window_y_milli, before.window.main_window_y_milli);
}

#[test]
fn test_roundtrip_full_document() {
    let manager = ConfigManager::from_path("config.toml".to_string());
    let mut doc = AppConfig::default();
    doc.appearance.pet_size = 640;
    doc.appearance.pet_opacity_milli = 250;
    doc.appearance.show_border = false;
    doc.ai = AIConfig {
        api_key: b"example-api-key".to_vec(),
        base_url: b"https://example.test/v2".to_vec(),
        model: b"some model \"quoted\" with \\slashes\\".to_vec(),
        temperature_milli: 1850,
        max_tokens: 32768,
        system_prompt: Some("line one\nline two\ttabbed\r\nwith unicode \u{4f60}\u{597d}".as_bytes().to_vec()),
    };
    doc.window.main_window_x_milli = -123456;
    doc.window.main_window_y_milli = 987654;
    doc.window.settings_window_x_milli = Some(-1);
    doc.window.settings_window_y_milli = Some(0);
    doc.window.settings_window_width_milli = Some(800500);
    doc.window.settings_window_height_milli = Some(600250);
    let bytes = manager.save(&doc);
    let loaded = manager.load(Some(&bytes));
    assert_config_eq(&loaded.config, &doc);
    assert!(loaded.write_back.is_none());
    assert!(loaded.backup.is_none());
}

#[test]
fn test_update_main_window_position() {
    let manager = ConfigManager::from_path("config.toml".to_string());
    let on_disk = manager.save(&AppConfig::default());
    let outcome = manager.save_main_window_position(Some(&on_disk), 123500, -77250);
    let reloaded = manager.load(Some(&outcome.bytes));
    assert_eq!(reloaded.config.window.main_window_x_milli, 123500);
    assert_eq!(reloaded.config.window.main_window_y_milli, -77250);
    assert_eq!(reloaded.config.appearance.pet_size, 150);
}

#[test]
fn test_update_settings_window_bounds() {
    let manager = ConfigManager::from_path("config.toml".to_string());
    let outcome = manager.save_settings_window_bounds(None, 10000, 20000, 640000, 480000);
    let reloaded = manager.load(Some(&outcome.bytes));
    assert_eq!(reloaded.config.window.settings_window_x_milli, Some(10000));
    assert_eq!(reloaded.config.window.settings_window_y_milli, Some(20000));
    assert_eq!(reloaded.config.window.settings_window_width_milli, Some(640000));
    assert_eq!(reloaded.config.window.settings_window_height_milli, Some(480000));
}

#[test]
fn test_update_ai_section() {
    let manager = ConfigManager::from_path("config.toml".to_string());
    let on_disk = manager.save(&AppConfig::default());
    let new_ai = AIConfig {
        api_key: b"k".to_vec(),
        base_url: b"https://other.example".to_vec(),
        model: b"m2".to_vec(),
        temperature_milli: 100,
        max_tokens: 10,
        system_prompt: None,
    };
    let outcome = manager.update_ai(Some(&on_disk), new_ai);
    let reloaded = manager.load(Some(&outcome.bytes));
    assert_eq!(reloaded.config.ai.model, b"m2".to_vec());
    assert_eq!(reloaded.config.ai.temperature_milli, 100);
    assert_eq!(reloaded.config.appearance.pet_size, 150);
}

#[test]
fn test_update_on_corrupt_file_recovers_then_applies() {
    let manager = ConfigManager::from_path("config.toml".to_string());
    let junk = b"[appearance]\npet_size = banana".to_vec();
    let outcome = manager.update_appearance(
        Some(&junk),
        AppearanceConfig { pet_size: 99, pet_opacity_milli: 500, show_border: false },
    );
    assert_eq!(outcome.backup, Some(junk));
    let reloaded = manager.load(Some(&outcome.bytes));
    assert_eq!(reloaded.config.appearance.pet_size, 99);
    assert_eq!(reloaded.config.appearance.pet_opacity_milli, 500);
    assert_eq!(reloaded.config.ai.model, b"deepseek-chat".to_vec());
}

#[test]
fn test_parse_error_variant() {
    let junk = b"not a document".to_vec();
    let err = parse_config(&junk).unwrap_err();
    assert_eq!(err, ConfigError::DeserializationError);
    assert_eq!(err.message(), "configuration file could not be decoded");
}

#[test]
fn test_missing_keys_default_and_unknown_keys_ignored() {
    let text = b"[appearance]\npet_size = 42\nfuture_knob = whatever\n\n[shiny_new_section]\nanything = goes\n".to_vec();
    let parsed = parse_config(&text).expect("tolerant parse");
    assert_eq!(parsed.appearance.pet_size, 42);
    assert_eq!(parsed.appearance.pet_opacity_milli, 1000);
    assert_eq!(parsed.ai.model, b"deepseek-chat".to_vec());
    // A missing optional field parses to None, even though the bootstrap
    // default document carries a prompt.
    assert_eq!(parsed.ai.system_prompt, None);
    assert_eq!(parsed.window.settings_window_x_milli, None);
}

#[test]
fn test_roundtrip_without_system_prompt() {
    let manager = ConfigManager::from_path("config.toml".to_string());
    let mut doc = AppConfig::default();
    doc.ai.system_prompt = None;
    let bytes = manager.save(&doc);
    let loaded = manager.load(Some(&bytes));
    assert_eq!(loaded.config.ai.system_prompt, None);
    assert_config_eq(&loaded.config, &doc);
}

#[test]
fn test_out_of_range_values_are_corruption() {
    let text = b"[appearance]\npet_size = 0\n".to_vec();
    assert!(parse_config(&text).is_err());
    let text2 = b"[appearance]\npet_opacity = 1.500\n".to_vec();
    assert!(parse_config(&text2).is_err());
}

#[test]
fn test_extreme_coordinates_roundtrip() {
    let manager = ConfigManager::from_path("config.toml".to_string());
    let mut doc = AppConfig::default();
    doc.window.main_window_x_milli = 1000000000000000;
    doc.window.main_window_y_milli = -1000000000000000;
    let bytes = manager.save(&doc);
    let loaded = manager.load(Some(&bytes));
    assert_eq!(loaded.config.window.main_window_x_milli, 1000000000000000);
    assert_eq!(loaded.config.window.main_window_y_milli, -1000000000000000);
    assert!(loaded.backup.is_none());
}

#[test]
fn test_oversized_coordinate_is_corruption() {
    let text = b"[window]\nmain_window_x = 10000000000000.000\n".to_vec();
    assert!(parse_config(&text).is_err());
}
