//! Options for building a title bar.

use vstd::prelude::*;
use vstd::string::*;
use crate::theme::{Color, ThemeMode};

verus! {

/// Configuration options for the title bar.
pub struct TitleBarOptions {
    /// Title text, if any.
    pub title: Option<String>,
    /// Desired theme mode.
    pub theme_mode: ThemeMode,
    /// Show title text on macOS.
    pub show_title_on_macos: bool,
    /// Show title text on Windows.
    pub show_title_on_windows: bool,
    /// Show title text on Linux.
    pub show_title_on_linux: bool,
    /// Background color override.
    pub background_color: Option<Color>,
    /// Hover color for window controls.
    pub hover_color: Option<Color>,
    /// Close button hover color.
    pub close_hover_color: Option<Color>,
    /// Close icon color.
    pub close_icon_color: Option<Color>,
    /// Maximize icon color.
    pub maximize_icon_color: Option<Color>,
    /// Restore icon color.
    pub restore_icon_color: Option<Color>,
    /// Minimize icon color.
    pub minimize_icon_color: Option<Color>,
    /// Title text color.
    pub title_color: Option<Color>,
    /// Title font size in points.
    pub title_font_size: Option<u32>,
    /// Menu text color.
    pub menu_text_color: Option<Color>,
    /// Menu text size in points.
    pub menu_text_size: Option<u32>,
    /// Menu hover background color.
    pub menu_hover_color: Option<Color>,
    /// Keyboard selection highlight color for menus.
    pub keyboard_selection_color: Option<Color>,
    /// Show the close button.
    pub show_close_button: Option<bool>,
    /// Show the maximize button.
    pub show_maximize_button: Option<bool>,
    /// Show the minimize button.
    pub show_minimize_button: Option<bool>,
    /// Spacing between custom icons, in points.
    pub icon_spacing: Option<u32>,
}

/// The default options: no title, light mode, the title shown everywhere,
/// nothing overridden.
pub open spec fn default_options() -> TitleBarOptions {
    TitleBarOptions {
        title: None,
        theme_mode: ThemeMode::Light,
        show_title_on_macos: true,
        show_title_on_windows: true,
        show_title_on_linux: true,
        background_color: None,
        hover_color: None,
        close_hover_color: None,
        close_icon_color: None,
        maximize_icon_color: None,
        restore_icon_color: None,
        minimize_icon_color: None,
        title_color: None,
        title_font_size: None,
        menu_text_color: None,
        menu_text_size: None,
        menu_hover_color: None,
        keyboard_selection_color: None,
        show_close_button: None,
        show_maximize_button: None,
        show_minimize_button: None,
        icon_spacing: None,
    }
}

impl Default for TitleBarOptions {
    fn default() -> (r: TitleBarOptions)
        ensures
            r == default_options(),
    {
        TitleBarOptions {
            title: None,
            theme_mode: ThemeMode::Light,
            show_title_on_macos: true,
            show_title_on_windows: true,
            show_title_on_linux: true,
            background_color: None,
            hover_color: None,
            close_hover_color: None,
            close_icon_color: None,
            maximize_icon_color: None,
            restore_icon_color: None,
            minimize_icon_color: None,
            title_color: None,
            title_font_size: None,
            menu_text_color: None,
            menu_text_size: None,
            menu_hover_color: None,
            keyboard_selection_color: None,
            show_close_button: None,
            show_maximize_button: None,
            show_minimize_button: None,
            icon_spacing: None,
        }
    }
}

impl TitleBarOptions {
    /// The default options.
    pub fn new() -> (r: TitleBarOptions)
        ensures
            r == default_options(),
    {
        Self::default()
    }

    /// Set the window title; an empty title means none.
    pub fn with_title(self, title: &str) -> (r: TitleBarOptions)
        ensures
            title@.len() == 0 ==> r.title is None,
            title@.len() > 0 ==> (r.title matches Some(t) && t@ == title@),
            r == (TitleBarOptions { title: r.title, ..self }),
    {
        let t = if title.unicode_len() == 0 {
            None
        } else {
            Some(String::from_str(title))
        };
        TitleBarOptions { title: t, ..self }
    }

    /// Select the theme mode.
    pub fn with_theme_mode(self, theme_mode: ThemeMode) -> (r: TitleBarOptions)
        ensures
            r == (TitleBarOptions { theme_mode, ..self }),
    {
        TitleBarOptions { theme_mode, ..self }
    }

    /// Choose on which platforms the title text is shown.
    pub fn with_title_visibility(self, macos: bool, windows: bool, linux: bool) -> (r: TitleBarOptions)
        ensures
            r == (TitleBarOptions {
                show_title_on_macos: macos,
                show_title_on_windows: windows,
                show_title_on_linux: linux,
                ..self
            }),
    {
        TitleBarOptions {
            show_title_on_macos: macos,
            show_title_on_windows: windows,
            show_title_on_linux: linux,
            ..self
        }
    }

    /// Override the background color.
    pub fn with_background_color(self, color: Color) -> (r: TitleBarOptions)
        ensures
            r == (TitleBarOptions { background_color: Some(color), ..self }),
    {
        TitleBarOptions { background_color: Some(color), ..self }
    }

    /// Override the hover color of window controls.
    pub fn with_hover_color(self, color: Color) -> (r: TitleBarOptions)
        ensures
            r == (TitleBarOptions { hover_color: Some(color), ..self }),
    {
        TitleBarOptions { hover_color: Some(color), ..self }
    }

    /// Override the hover color of the close button.
    pub fn with_close_hover_color(self, color: Color) -> (r: TitleBarOptions)
        ensures
            r == (TitleBarOptions { close_hover_color: Some(color), ..self }),
    {
        TitleBarOptions { close_hover_color: Some(color), ..self }
    }

    /// Override the close icon color.
    pub fn with_close_icon_color(self, color: Color) -> (r: TitleBarOptions)
        ensures
            r == (TitleBarOptions { close_icon_color: Some(color), ..self }),
    {
        TitleBarOptions { close_icon_color: Some(color), ..self }
    }

    /// Override the maximize icon color.
    pub fn with_maximize_icon_color(self, color: Color) -> (r: TitleBarOptions)
        ensures
            r == (TitleBarOptions { maximize_icon_color: Some(color), ..self }),
    {
        TitleBarOptions { maximize_icon_color: Some(color), ..self }
    }

    /// Override the restore icon color.
    pub fn with_restore_icon_color(self, color: Color) -> (r: TitleBarOptions)
        ensures
            r == (TitleBarOptions { restore_icon_color: Some(color), ..self }),
    {
        TitleBarOptions { restore_icon_color: Some(color), ..self }
    }

    /// Override the minimize icon color.
    pub fn with_minimize_icon_color(self, color: Color) -> (r: TitleBarOptions)
        ensures
            r == (TitleBarOptions { minimize_icon_color: Some(color), ..self }),
    {
        TitleBarOptions { minimize_icon_color: Some(color), ..self }
    }

    /// Override the title text color.
    pub fn with_title_color(self, color: Color) -> (r: TitleBarOptions)
        ensures
            r == (TitleBarOptions { title_color: Some(color), ..self }),
    {
        TitleBarOptions { title_color: Some(color), ..self }
    }

    /// Override the title font size.
    pub fn with_title_font_size(self, size: u32) -> (r: TitleBarOptions)
        ensures
            r == (TitleBarOptions { title_font_size: Some(size), ..self }),
    {
        TitleBarOptions { title_font_size: Some(size), ..self }
    }

    /// Override the menu text color.
    pub fn with_menu_text_color(self, color: Color) -> (r: TitleBarOptions)
        ensures
            r == (TitleBarOptions { menu_text_color: Some(color), ..self }),
    {
        TitleBarOptions { menu_text_color: Some(color), ..self }
    }

    /// Override the menu text size.
    pub fn with_menu_text_size(self, size: u32) -> (r: TitleBarOptions)
        ensures
            r == (TitleBarOptions { menu_text_size: Some(size), ..self }),
    {
        TitleBarOptions { menu_text_size: Some(size), ..self }
    }

    /// Override the menu hover background color.
    pub fn with_menu_hover_color(self, color: Color) -> (r: TitleBarOptions)
        ensures
            r == (TitleBarOptions { menu_hover_color: Some(color), ..self }),
    {
        TitleBarOptions { menu_hover_color: Some(color), ..self }
    }

    /// Override the keyboard selection highlight color.
    pub fn with_keyboard_selection_color(self, color: Color) -> (r: TitleBarOptions)
        ensures
            r == (TitleBarOptions { keyboard_selection_color: Some(color), ..self }),
    {
        TitleBarOptions { keyboard_selection_color: Some(color), ..self }
    }

    /// Show or hide the close button.
    pub fn with_show_close_button(self, show: bool) -> (r: TitleBarOptions)
        ensures
            r == (TitleBarOptions { show_close_button: Some(show), ..self }),
    {
        TitleBarOptions { show_close_button: Some(show), ..self }
    }

    /// Show or hide the maximize button.
    pub fn with_show_maximize_button(self, show: bool) -> (r: TitleBarOptions)
        ensures
            r == (TitleBarOptions { show_maximize_button: Some(show), ..self }),
    {
        TitleBarOptions { show_maximize_button: Some(show), ..self }
    }

    /// Show or hide the minimize button.
    pub fn with_show_minimize_button(self, show: bool) -> (r: TitleBarOptions)
        ensures
            r == (TitleBarOptions { show_minimize_button: Some(show), ..self }),
    {
        TitleBarOptions { show_minimize_button: Some(show), ..self }
    }

    /// Set the spacing between custom icons.
    pub fn with_icon_spacing(self, size: u32) -> (r: TitleBarOptions)
        ensures
            r == (TitleBarOptions { icon_spacing: Some(size), ..self }),
    {
        TitleBarOptions { icon_spacing: Some(size), ..self }
    }
}

} // verus!
