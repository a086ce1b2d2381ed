use egui_desktop::options::TitleBarOptions;
use egui_desktop::shortcuts::{InputSnapshot, Key, KeyboardShortcut, Modifiers, ShortcutStates};
use egui_desktop::theme::{system_reports_dark, Color, ThemeError, ThemeMode, ThemeOverrides, TitleBarTheme};
use egui_desktop::titlebar::{supports_native_rounded_corners, Platform, TitleBar};

#[test]
fn options_override_the_mode_theme() {
    let red = Color::from_rgb(200, 0, 0);
    let o = TitleBarOptions::new()
        .with_title("Demo")
        .with_theme_mode(ThemeMode::Dark)
        .with_background_color(red)
        .with_menu_text_size(14)
        .with_show_close_button(false);
    let bar: TitleBar<u32> = TitleBar::new(o, false);
    let d = TitleBarTheme::dark();
    assert_eq!(bar.title.as_deref(), Some("Demo"));
    assert_eq!(bar.theme.background_color, red);
    assert_eq!(bar.theme.menu_text_size, 14);
    assert_eq!(bar.theme.hover_color, d.hover_color);
    assert_eq!(bar.theme.submenu_background_color, d.submenu_background_color);
    assert_eq!(bar.title_font_size, 12);
    assert_eq!(bar.icon_spacing, 4);
    assert!(!bar.show_close_button);
    assert!(bar.show_minimize_button);
}

#[test]
fn system_mode_without_dark_detection_is_light() {
    let bar: TitleBar<u32> = TitleBar::new(TitleBarOptions::new().with_theme_mode(ThemeMode::System), false);
    assert_eq!(bar.theme, TitleBarTheme::light());
    let bar = bar.with_theme_mode(ThemeMode::System, true);
    assert_eq!(bar.theme, TitleBarTheme::dark());
}

#[test]
fn empty_title_is_none() {
    let bar: TitleBar<u32> = TitleBar::with_title("");
    assert!(bar.title.is_none());
    assert!(TitleBarOptions::new().with_title("").title.is_none());
}

#[test]
fn title_visibility_per_platform() {
    let o = TitleBarOptions::new().with_title_visibility(false, true, false);
    let bar: TitleBar<u32> = TitleBar::new(o, false);
    assert!(!bar.should_show_title(Platform::MacOs));
    assert!(bar.should_show_title(Platform::Windows));
    assert!(!bar.should_show_title(Platform::Linux));
    assert!(!bar.should_show_title(Platform::Other));
}

#[test]
fn native_corners_where_supported() {
    assert!(supports_native_rounded_corners(Platform::Windows));
    assert!(supports_native_rounded_corners(Platform::Linux));
    assert!(!supports_native_rounded_corners(Platform::Other));
}

#[test]
fn switch_theme_applies_or_leaves_unchanged() {
    let mut bar: TitleBar<u32> = TitleBar::icon_only();
    assert_eq!(bar.switch_theme("ocean", None), Err(ThemeError::ThemeNotFound));
    assert_eq!(bar.theme, TitleBarTheme::light());
    assert!(bar.current_theme_id.is_none());
    let t = TitleBarTheme::dark_with_overrides(
        Some(Color::from_rgb(0, 0, 80)), None, None, None, None, None, None, None, None, None, None, None, None, None, None, None, None,
    );
    assert_eq!(bar.switch_theme("ocean", Some(t)), Ok(()));
    assert_eq!(bar.theme, t);
    assert_eq!(bar.current_theme_id.as_deref(), Some("ocean"));
}

#[test]
fn with_theme_takes_main_fields_only() {
    let bar: TitleBar<u32> = TitleBar::icon_only().with_theme(TitleBarTheme::dark());
    let d = TitleBarTheme::dark();
    let l = TitleBarTheme::light();
    assert_eq!(bar.theme.background_color, d.background_color);
    assert_eq!(bar.theme.menu_hover_color, d.menu_hover_color);
    assert_eq!(bar.theme.keyboard_selection_color, l.keyboard_selection_color);
    assert_eq!(bar.theme.submenu_background_color, l.submenu_background_color);
}

#[test]
fn custom_themes_by_overrides() {
    let mut bar: TitleBar<u32> = TitleBar::icon_only();
    let o = ThemeOverrides { title_color: Some(Color::from_rgb(9, 9, 9)), ..ThemeOverrides::none() };
    bar.update_custom_dark_theme(o);
    assert_eq!(bar.theme_mode, ThemeMode::Dark);
    assert_eq!(bar.theme.title_color, Color::from_rgb(9, 9, 9));
    assert_eq!(bar.theme.background_color, TitleBarTheme::dark().background_color);
    bar.update_custom_light_theme(ThemeOverrides::none());
    assert_eq!(bar.theme, TitleBarTheme::light());
    let bar = bar.with_custom_dark_theme(ThemeOverrides::none());
    assert_eq!(bar.theme_mode, ThemeMode::Light);
    assert_eq!(bar.theme.background_color, TitleBarTheme::dark().background_color);
}

#[test]
fn sync_only_in_system_mode() {
    let mut bar: TitleBar<u32> = TitleBar::icon_only();
    bar.sync_with_system_theme(true);
    assert_eq!(bar.theme, TitleBarTheme::light());
    bar.update_theme_mode(ThemeMode::System, false);
    bar.sync_with_egui_theme(true);
    assert_eq!(bar.theme.background_color, TitleBarTheme::dark().background_color);
    assert_eq!(bar.theme.keyboard_selection_color, TitleBarTheme::light().keyboard_selection_color);
}

#[test]
fn builder_colors() {
    let c = Color::from_rgb(1, 1, 1);
    let bar: TitleBar<u32> = TitleBar::icon_only().with_close_icon_color(c).with_title_color(c).with_title_font_size(16);
    assert_eq!(bar.theme.close_icon_color, c);
    assert_eq!(bar.theme.title_color, c);
    assert_eq!(bar.title_font_size, 16);
}

#[test]
fn icon_shortcuts_and_colors() {
    let mut bar: TitleBar<u32> = TitleBar::icon_only()
        .add_icon(Some(1), Some("Settings".to_string()), Some(KeyboardShortcut::parse("ctrl+,")))
        .add_icon(None, None, Some(KeyboardShortcut::parse("f5")))
        .add_icon(Some(3), None, Some(KeyboardShortcut::parse("f5")));
    let mut states = ShortcutStates::new();
    let none = Modifiers::none();
    let f5 = InputSnapshot { keys_pressed: vec![Key::F5], modifiers: none };
    // the second icon records the press first, so the third sees it as held
    assert!(bar.handle_icon_shortcuts(&mut states, &f5).is_empty());
    let mut states = ShortcutStates::new();
    let f5_first = TitleBar::<u32>::icon_only().add_icon(Some(3), None, Some(KeyboardShortcut::parse("f5")));
    assert_eq!(f5_first.handle_icon_shortcuts(&mut states, &f5), vec![0]);
    bar.set_custom_icon_color(2, Some(Color::from_rgb(5, 5, 5)));
    bar.set_custom_icon_color(7, Some(Color::from_rgb(5, 5, 5)));
    assert_eq!(bar.custom_icons[2].icon_color, Some(Color::from_rgb(5, 5, 5)));
    assert_eq!(bar.custom_icons[0].icon_color, None);
}

#[test]
fn theme_query_output_is_read_per_platform() {
    let reg_light = "    AppsUseLightTheme    REG_DWORD    0x1\n";
    let reg_dark = "    AppsUseLightTheme    REG_DWORD    0x0\n";
    assert!(!system_reports_dark(Platform::Windows, reg_light));
    assert!(system_reports_dark(Platform::Windows, reg_dark));
    assert!(system_reports_dark(Platform::MacOs, "Dark\n"));
    assert!(!system_reports_dark(Platform::MacOs, ""));
    assert!(system_reports_dark(Platform::Linux, "'Adwaita-dark'\n"));
    assert!(system_reports_dark(Platform::Linux, "Yaru-Dark"));
    assert!(!system_reports_dark(Platform::Linux, "'Adwaita'\n"));
    assert!(!system_reports_dark(Platform::Other, "Dark"));
}
