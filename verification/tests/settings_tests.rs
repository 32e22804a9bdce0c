use resonance_gui::settings::{resolve_theme, settings_or_default, GuiSettingsContainer, Theme, ThemePreference};

#[test]
fn default_settings() {
    let s = GuiSettingsContainer::default();
    assert_eq!(s.device, "");
    assert_eq!(s.baud, 115_200);
    assert!(s.debug);
    assert!(!s.save_absolute_time);
    assert!(s.dark_mode);
    assert_eq!(s.theme_preference, ThemePreference::System);
}

#[test]
fn loaded_settings_are_kept() {
    let mut s = GuiSettingsContainer::default();
    s.device = "/dev/tty.usb".to_string();
    s.dark_mode = false;
    let (r, store) = settings_or_default(Some(s.clone()));
    assert_eq!(r, s);
    assert!(!store);
}

#[test]
fn missing_settings_fall_back_to_default_and_are_stored() {
    let (r, store) = settings_or_default(None);
    assert_eq!(r, GuiSettingsContainer::default());
    assert!(store);
}

#[test]
fn theme_choice() {
    assert_eq!(resolve_theme(ThemePreference::Dark, Some(Theme::Light)), Theme::Dark);
    assert_eq!(resolve_theme(ThemePreference::Light, None), Theme::Light);
    assert_eq!(resolve_theme(ThemePreference::System, Some(Theme::Light)), Theme::Light);
    assert_eq!(resolve_theme(ThemePreference::System, Some(Theme::Dark)), Theme::Dark);
    assert_eq!(resolve_theme(ThemePreference::System, None), Theme::Dark);
}
