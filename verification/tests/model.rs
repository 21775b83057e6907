use desktop_pet::model::AIConfig;
use desktop_pet::model::AppConfig;
use desktop_pet::model::AppearanceConfig;
use desktop_pet::model::ConfigUpdate;
use desktop_pet::model::WindowConfig;

#[test]
fn test_compiled_in_defaults() {
    let d = AppConfig::default();
    assert_eq!(d.appearance.pet_size, 150);
    assert_eq!(d.appearance.pet_opacity_milli, 1000);
    assert!(d.appearance.show_border);
    assert_eq!(d.ai.api_key, Vec::<u8>::new());
    assert_eq!(d.ai.base_url, b"https://api.deepseek.com/v1".to_vec());
    assert_eq!(d.ai.model, b"deepseek-chat".to_vec());
    assert_eq!(d.ai.temperature_milli, 700);
    assert_eq!(d.ai.max_tokens, 2000);
    assert_eq!(
        d.ai.system_prompt,
        Some(
            b"You are a cute and clever desktop pet companion. Speak as yourself in the first person, keep a warm and natural tone, and keep your replies short and friendly."
                .to_vec(),
        ),
    );
    assert_eq!(d.window.main_window_x_milli, 400000);
    assert_eq!(d.window.main_window_y_milli, 400000);
    assert_eq!(d.window.settings_window_x_milli, None);
    assert_eq!(d.window.settings_window_y_milli, None);
    assert_eq!(d.window.settings_window_width_milli, None);
    assert_eq!(d.window.settings_window_height_milli, None);
}

#[test]
fn test_section_getters_are_snapshots() {
    let d = AppConfig::default();
    let appearance = d.get_appearance();
    let ai = d.get_ai();
    let window = d.get_window();
    assert_eq!(appearance.pet_size, d.appearance.pet_size);
    assert_eq!(ai.model, d.ai.model);
    assert_eq!(window.main_window_x_milli, d.window.main_window_x_milli);
}

#[test]
fn test_apply_update_appearance_frames_other_sections() {
    let d = AppConfig::default();
    let updated = d.apply_update(&ConfigUpdate::Appearance(AppearanceConfig {
        pet_size: 300,
        pet_opacity_milli: 750,
        show_border: false,
    }));
    assert_eq!(updated.appearance.pet_size, 300);
    assert_eq!(updated.appearance.pet_opacity_milli, 750);
    assert!(!updated.appearance.show_border);
    assert_eq!(updated.ai.model, d.ai.model);
    assert_eq!(updated.window.main_window_x_milli, d.window.main_window_x_milli);
}

#[test]
fn test_apply_update_ai_frames_other_sections() {
    let d = AppConfig::default();
    let updated = d.apply_update(&ConfigUpdate::Ai(AIConfig {
        api_key: b"secret".to_vec(),
        base_url: b"https://example.test".to_vec(),
        model: b"other".to_vec(),
        temperature_milli: 1200,
        max_tokens: 1,
        system_prompt: Some(b"be brief".to_vec()),
    }));
    assert_eq!(updated.ai.model, b"other".to_vec());
    assert_eq!(updated.ai.system_prompt, Some(b"be brief".to_vec()));
    assert_eq!(updated.appearance.pet_size, d.appearance.pet_size);
    assert_eq!(updated.window.main_window_y_milli, d.window.main_window_y_milli);
}

#[test]
fn test_apply_update_window_positions() {
    let d = AppConfig::default();
    let moved = d.apply_update(&ConfigUpdate::MainWindowPosition { x_milli: -5000, y_milli: 60250 });
    assert_eq!(moved.window.main_window_x_milli, -5000);
    assert_eq!(moved.window.main_window_y_milli, 60250);
    assert_eq!(moved.window.settings_window_x_milli, None);
    let bounded = moved.apply_update(&ConfigUpdate::SettingsWindowBounds {
        x_milli: 1000,
        y_milli: 2000,
        width_milli: 3000,
        height_milli: 4000,
    });
    assert_eq!(bounded.window.main_window_x_milli, -5000);
    assert_eq!(bounded.window.settings_window_x_milli, Some(1000));
    assert_eq!(bounded.window.settings_window_y_milli, Some(2000));
    assert_eq!(bounded.window.settings_window_width_milli, Some(3000));
    assert_eq!(bounded.window.settings_window_height_milli, Some(4000));
}

#[test]
fn test_duplicate_is_field_for_field() {
    let mut d = AppConfig::default();
    d.ai.system_prompt = Some(b"stay cozy".to_vec());
    d.window = WindowConfig {
        main_window_x_milli: 1,
        main_window_y_milli: 2,
        settings_window_x_milli: Some(3),
        settings_window_y_milli: Some(4),
        settings_window_width_milli: Some(5),
        settings_window_height_milli: Some(6),
    };
    let copy = d.duplicate();
    assert_eq!(copy.ai.system_prompt, d.ai.system_prompt);
    assert_eq!(copy.window.settings_window_height_milli, Some(6));
    assert_eq!(copy.appearance.pet_size, d.appearance.pet_size);
}
