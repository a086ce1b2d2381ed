use egui_desktop::theme::{Color, ThemeMode, ThemeOverrides, TitleBarTheme};

#[test]
fn light_background_override_changes_only_background() {
    let x = Color::from_rgb(12, 34, 56);
    let t = TitleBarTheme::light_with_overrides(
        Some(x), None, None, None, None, None, None, None, None, None, None, None, None, None, None, None, None,
    );
    let mut expected = TitleBarTheme::light();
    expected.background_color = x;
    assert_eq!(t, expected);
    assert_ne!(t, TitleBarTheme::light());
}

#[test]
fn dark_overrides_each_field_independently() {
    let c = Color::from_rgb(1, 2, 3);
    let t = TitleBarTheme::dark_with_overrides(
        None, None, None, None, None, None, None, None, None, Some(15), None, None, None, Some(c), None, None, None,
    );
    let d = TitleBarTheme::dark();
    assert_eq!(t.menu_text_size, 15);
    assert_eq!(t.submenu_text_color, c);
    assert_eq!(t.background_color, d.background_color);
    assert_eq!(t.submenu_text_size, d.submenu_text_size);
    assert_eq!(t.submenu_border_color, d.submenu_border_color);
}

#[test]
fn overriding_nothing_keeps_the_base() {
    assert_eq!(TitleBarTheme::dark().overridden(&ThemeOverrides::none()), TitleBarTheme::dark());
}

#[test]
fn built_in_colors() {
    let l = TitleBarTheme::light();
    assert_eq!(l.background_color, Color { r: 255, g: 255, b: 255, a: 255 });
    assert_eq!(l.close_hover_color, Color::from_rgb(232, 17, 35));
    assert_eq!(l.keyboard_selection_color, Color::from_rgb(0, 120, 215));
    assert_eq!(l.menu_text_size, 12);
    assert_eq!(l.submenu_text_size, 11);
    let d = TitleBarTheme::dark();
    assert_eq!(d.background_color, Color::from_rgb(30, 30, 30));
    assert_eq!(d.submenu_background_color, Color::from_rgb(40, 40, 40));
    assert_eq!(d.submenu_keyboard_selection_color, Color::from_rgb(30, 144, 255));
    assert_eq!(TitleBarTheme::default(), l);
}

#[test]
fn system_mode_follows_detection() {
    assert_eq!(TitleBarTheme::for_mode(ThemeMode::System, false), TitleBarTheme::light());
    assert_eq!(TitleBarTheme::for_mode(ThemeMode::System, true), TitleBarTheme::dark());
    assert_eq!(TitleBarTheme::for_mode(ThemeMode::Light, true), TitleBarTheme::light());
    assert_eq!(TitleBarTheme::for_mode(ThemeMode::Dark, false), TitleBarTheme::dark());
}
