//! The title bar: its title, theme, window-control settings, custom icon
//! buttons and menus.

use vstd::prelude::*;
use vstd::string::*;
use crate::engine::{Activation, MenuEvent, Menus, step, shortcut_activations_spec};
use crate::menu::MenuItem;
use crate::options::TitleBarOptions;
use crate::shortcuts::{run_shortcuts, shortcut_run, InputSnapshot, KeyboardShortcut, ShortcutStates};
use crate::theme::{
    or_else, theme_for, unwrap_or, with_overrides, light_theme, dark_theme, Color, ThemeError, ThemeMode, ThemeOverrides,
    TitleBarTheme,
};

verus! {

/// The operating system family the title bar runs on.
#[derive(Debug, Clone, Copy, PartialEq, Eq, Hash, Structural)]
pub enum Platform {
    Windows,
    MacOs,
    Linux,
    Other,
}

/// Whether there is a native way to round window corners on the platform.
pub fn supports_native_rounded_corners(platform: Platform) -> (r: bool)
    ensures
        r == (platform != Platform::Other),
{
    match platform {
        Platform::Windows => true,
        Platform::MacOs => true,
        Platform::Linux => true,
        Platform::Other => false,
    }
}

/// Window control icon types used by the title bar.
#[derive(Debug, Clone, Copy, PartialEq, Eq, Hash, Structural)]
pub enum WindowControlIcon {
    /// Close the window.
    Close,
    /// Maximize the window.
    Maximize,
    /// Restore the window from maximized state.
    Restore,
    /// Minimize the window.
    Minimize,
}

/// Settings of a custom icon button; how the icon is drawn is up to the host.
pub struct CustomIconButton<C> {
    /// Tooltip shown on hover.
    pub tooltip: Option<String>,
    /// Hover background color, overriding the title bar's.
    pub hover_color: Option<Color>,
    /// Icon color, overriding the default.
    pub icon_color: Option<Color>,
    /// What runs when the icon is clicked or its shortcut pressed.
    pub callback: Option<C>,
    /// Keyboard shortcut for this icon.
    pub shortcut: Option<KeyboardShortcut>,
}

/// Title bar state and configuration.
pub struct TitleBar<C> {
    /// Title text, if any.
    pub title: Option<String>,
    /// Colors and text sizes in use.
    pub theme: TitleBarTheme,
    /// Title font size in points.
    pub title_font_size: u32,
    /// Selected theme mode.
    pub theme_mode: ThemeMode,
    /// Whether to show the title on macOS.
    pub show_title_on_macos: bool,
    /// Whether to show the title on Windows.
    pub show_title_on_windows: bool,
    /// Whether to show the title on Linux.
    pub show_title_on_linux: bool,
    /// Whether to show the close button.
    pub show_close_button: bool,
    /// Whether to show the maximize button.
    pub show_maximize_button: bool,
    /// Whether to show the minimize button.
    pub show_minimize_button: bool,
    /// Spacing between custom icons, in points.
    pub icon_spacing: u32,
    /// Menus and their interaction state.
    pub menus: Menus<C>,
    /// Custom icon buttons, in the order they were added.
    pub custom_icons: Vec<CustomIconButton<C>>,
    /// Identifier of the theme last switched to by name, if any.
    pub current_theme_id: Option<String>,
}

/// The theme a title bar starts with: the mode's theme, with the colors and
/// sizes that the options give replacing its own.
pub open spec fn initial_theme(o: TitleBarOptions, system_dark: bool) -> TitleBarTheme {
    let t = theme_for(o.theme_mode, system_dark);
    TitleBarTheme {
        background_color: or_else(o.background_color, t.background_color),
        hover_color: or_else(o.hover_color, t.hover_color),
        close_hover_color: or_else(o.close_hover_color, t.close_hover_color),
        close_icon_color: or_else(o.close_icon_color, t.close_icon_color),
        maximize_icon_color: or_else(o.maximize_icon_color, t.maximize_icon_color),
        restore_icon_color: or_else(o.restore_icon_color, t.restore_icon_color),
        minimize_icon_color: or_else(o.minimize_icon_color, t.minimize_icon_color),
        title_color: or_else(o.title_color, t.title_color),
        menu_text_color: or_else(o.menu_text_color, t.menu_text_color),
        menu_text_size: or_else(o.menu_text_size, t.menu_text_size),
        menu_hover_color: or_else(o.menu_hover_color, t.menu_hover_color),
        keyboard_selection_color: or_else(o.keyboard_selection_color, t.keyboard_selection_color),
        ..t
    }
}

/// `cur` with the window, title and menu colors and the menu text size of `t`.
pub open spec fn with_main_fields(cur: TitleBarTheme, t: TitleBarTheme) -> TitleBarTheme {
    TitleBarTheme {
        background_color: t.background_color,
        hover_color: t.hover_color,
        close_hover_color: t.close_hover_color,
        close_icon_color: t.close_icon_color,
        maximize_icon_color: t.maximize_icon_color,
        restore_icon_color: t.restore_icon_color,
        minimize_icon_color: t.minimize_icon_color,
        title_color: t.title_color,
        menu_text_color: t.menu_text_color,
        menu_text_size: t.menu_text_size,
        menu_hover_color: t.menu_hover_color,
        ..cur
    }
}

/// `cur` with the window, title and menu colors of `t`.
pub open spec fn with_sync_fields(cur: TitleBarTheme, t: TitleBarTheme) -> TitleBarTheme {
    TitleBarTheme {
        background_color: t.background_color,
        hover_color: t.hover_color,
        close_hover_color: t.close_hover_color,
        close_icon_color: t.close_icon_color,
        maximize_icon_color: t.maximize_icon_color,
        restore_icon_color: t.restore_icon_color,
        minimize_icon_color: t.minimize_icon_color,
        title_color: t.title_color,
        menu_text_color: t.menu_text_color,
        menu_hover_color: t.menu_hover_color,
        ..cur
    }
}

/// The shortcut slots of the custom icons: an icon may run if it has a callback.
pub open spec fn icon_slots<C>(icons: Seq<CustomIconButton<C>>) -> Seq<(Option<KeyboardShortcut>, bool)> {
    icons.map_values(|b: CustomIconButton<C>| (b.shortcut, b.callback is Some))
}

impl<C> TitleBar<C> {
    /// A title bar built from options. `system_dark` says whether the operating
    /// system is in dark mode; only the `System` mode reads it.
    pub fn new(options: TitleBarOptions, system_dark: bool) -> (r: Self)
        ensures
            r.title == options.title,
            r.theme == initial_theme(options, system_dark),
            r.title_font_size == or_else(options.title_font_size, 12),
            r.theme_mode == options.theme_mode,
            r.show_title_on_macos == options.show_title_on_macos,
            r.show_title_on_windows == options.show_title_on_windows,
            r.show_title_on_linux == options.show_title_on_linux,
            r.show_close_button == or_else(options.show_close_button, true),
            r.show_maximize_button == or_else(options.show_maximize_button, true),
            r.show_minimize_button == or_else(options.show_minimize_button, true),
            r.icon_spacing == or_else(options.icon_spacing, 4),
            r.menus.spec_menus().len() == 0,
            r.menus.spec_state() == crate::engine::MenuState::new_spec(),
            r.custom_icons@.len() == 0,
            r.current_theme_id is None,
    {
        let t = TitleBarTheme::for_mode(options.theme_mode, system_dark);
        let theme = TitleBarTheme {
            background_color: unwrap_or(options.background_color, t.background_color),
            hover_color: unwrap_or(options.hover_color, t.hover_color),
            close_hover_color: unwrap_or(options.close_hover_color, t.close_hover_color),
            close_icon_color: unwrap_or(options.close_icon_color, t.close_icon_color),
            maximize_icon_color: unwrap_or(options.maximize_icon_color, t.maximize_icon_color),
            restore_icon_color: unwrap_or(options.restore_icon_color, t.restore_icon_color),
            minimize_icon_color: unwrap_or(options.minimize_icon_color, t.minimize_icon_color),
            title_color: unwrap_or(options.title_color, t.title_color),
            menu_text_color: unwrap_or(options.menu_text_color, t.menu_text_color),
            menu_text_size: unwrap_or(options.menu_text_size, t.menu_text_size),
            menu_hover_color: unwrap_or(options.menu_hover_color, t.menu_hover_color),
            keyboard_selection_color: unwrap_or(options.keyboard_selection_color, t.keyboard_selection_color),
            ..t
        };
        TitleBar {
            title: options.title,
            theme,
            title_font_size: unwrap_or(options.title_font_size, 12),
            theme_mode: options.theme_mode,
            show_title_on_macos: options.show_title_on_macos,
            show_title_on_windows: options.show_title_on_windows,
            show_title_on_linux: options.show_title_on_linux,
            show_close_button: unwrap_or(options.show_close_button, true),
            show_maximize_button: unwrap_or(options.show_maximize_button, true),
            show_minimize_button: unwrap_or(options.show_minimize_button, true),
            icon_spacing: unwrap_or(options.icon_spacing, 4),
            menus: Menus::new(),
            custom_icons: Vec::new(),
            current_theme_id: None,
        }
    }

    /// A light title bar with a title (an empty title means none).
    pub fn with_title(title: &str) -> (r: Self)
        ensures
            title@.len() == 0 ==> r.title is None,
            title@.len() > 0 ==> (r.title matches Some(t) && t@ == title@),
            r.theme == light_theme(),
            r.theme_mode == ThemeMode::Light,
    {
        Self::new(TitleBarOptions::new().with_title(title), false)
    }

    /// A light title bar with no title.
    pub fn icon_only() -> (r: Self)
        ensures
            r.title is None,
            r.theme == light_theme(),
            r.theme_mode == ThemeMode::Light,
    {
        Self::new(TitleBarOptions::new(), false)
    }

    /// Whether the title is shown on the given platform.
    pub fn should_show_title(&self, platform: Platform) -> (r: bool)
        ensures
            r == match platform {
                Platform::MacOs => self.show_title_on_macos,
                Platform::Windows => self.show_title_on_windows,
                Platform::Linux => self.show_title_on_linux,
                Platform::Other => false,
            },
    {
        match platform {
            Platform::MacOs => self.show_title_on_macos,
            Platform::Windows => self.show_title_on_windows,
            Platform::Linux => self.show_title_on_linux,
            Platform::Other => false,
        }
    }


    /// Set the background color.
    pub fn with_background_color(self, color: Color) -> (r: Self)
        ensures
            r == (TitleBar { theme: TitleBarTheme { background_color: color, ..self.theme }, ..self }),
    {
        let mut s = self;
        s.theme.background_color = color;
        s
    }

    /// Set the hover color of the window controls.
    pub fn with_hover_color(self, color: Color) -> (r: Self)
        ensures
            r == (TitleBar { theme: TitleBarTheme { hover_color: color, ..self.theme }, ..self }),
    {
        let mut s = self;
        s.theme.hover_color = color;
        s
    }

    /// Set the hover color of the close button.
    pub fn with_close_hover_color(self, color: Color) -> (r: Self)
        ensures
            r == (TitleBar { theme: TitleBarTheme { close_hover_color: color, ..self.theme }, ..self }),
    {
        let mut s = self;
        s.theme.close_hover_color = color;
        s
    }

    /// Set the close icon color.
    pub fn with_close_icon_color(self, color: Color) -> (r: Self)
        ensures
            r == (TitleBar { theme: TitleBarTheme { close_icon_color: color, ..self.theme }, ..self }),
    {
        let mut s = self;
        s.theme.close_icon_color = color;
        s
    }

    /// Set the title text color.
    pub fn with_title_color(self, color: Color) -> (r: Self)
        ensures
            r == (TitleBar { theme: TitleBarTheme { title_color: color, ..self.theme }, ..self }),
    {
        let mut s = self;
        s.theme.title_color = color;
        s
    }

    /// Set the title font size in points.
    pub fn with_title_font_size(self, size: u32) -> (r: Self)
        ensures
            r == (TitleBar { title_font_size: size, ..self }),
    {
        let mut s = self;
        s.title_font_size = size;
        s
    }

    /// Apply a theme in full.
    fn apply_theme(&mut self, theme: TitleBarTheme)
        ensures
            *final(self) == (TitleBar { theme, ..*old(self) }),
    {
        self.theme = theme;
    }

    /// Apply the theme of the current mode.
    fn apply_theme_mode(&mut self, system_dark: bool)
        ensures
            *final(self) == (TitleBar { theme: theme_for(old(self).theme_mode, system_dark), ..*old(self) }),
    {
        self.theme = TitleBarTheme::for_mode(self.theme_mode, system_dark);
    }

    /// Set the theme mode and apply its theme. `system_dark` says whether the
    /// operating system is in dark mode; only the `System` mode reads it.
    pub fn with_theme_mode(self, mode: ThemeMode, system_dark: bool) -> (r: Self)
        ensures
            r == (TitleBar { theme_mode: mode, theme: theme_for(mode, system_dark), ..self }),
    {
        let mut s = self;
        s.theme_mode = mode;
        s.apply_theme_mode(system_dark);
        s
    }

    /// Set the theme mode and apply its theme in place.
    pub fn update_theme_mode(&mut self, theme_mode: ThemeMode, system_dark: bool)
        ensures
            *final(self) == (TitleBar { theme_mode, theme: theme_for(theme_mode, system_dark), ..*old(self) }),
    {
        self.theme_mode = theme_mode;
        self.apply_theme_mode(system_dark);
    }

    /// Switch to light mode with the light theme, selected fields overridden.
    pub fn update_custom_light_theme(&mut self, overrides: ThemeOverrides)
        ensures
            *final(self) == (TitleBar {
                theme_mode: ThemeMode::Light,
                theme: with_overrides(light_theme(), overrides),
                ..*old(self)
            }),
    {
        self.theme_mode = ThemeMode::Light;
        let theme = TitleBarTheme::light().overridden(&overrides);
        self.apply_theme(theme);
    }

    /// Switch to dark mode with the dark theme, selected fields overridden.
    pub fn update_custom_dark_theme(&mut self, overrides: ThemeOverrides)
        ensures
            *final(self) == (TitleBar {
                theme_mode: ThemeMode::Dark,
                theme: with_overrides(dark_theme(), overrides),
                ..*old(self)
            }),
    {
        self.theme_mode = ThemeMode::Dark;
        let theme = TitleBarTheme::dark().overridden(&overrides);
        self.apply_theme(theme);
    }

    /// Take the window, title and menu colors and the menu text size of a
    /// theme; the rest of the current theme stays.
    pub fn with_theme(self, theme: TitleBarTheme) -> (r: Self)
        ensures
            r == (TitleBar { theme: with_main_fields(self.theme, theme), ..self }),
    {
        let mut s = self;
        s.theme = TitleBarTheme {
            background_color: theme.background_color,
            hover_color: theme.hover_color,
            close_hover_color: theme.close_hover_color,
            close_icon_color: theme.close_icon_color,
            maximize_icon_color: theme.maximize_icon_color,
            restore_icon_color: theme.restore_icon_color,
            minimize_icon_color: theme.minimize_icon_color,
            title_color: theme.title_color,
            menu_text_color: theme.menu_text_color,
            menu_text_size: theme.menu_text_size,
            menu_hover_color: theme.menu_hover_color,
            ..s.theme
        };
        s
    }

    /// Take those fields from the light theme with selected fields overridden.
    pub fn with_custom_light_theme(self, overrides: ThemeOverrides) -> (r: Self)
        ensures
            r == (TitleBar { theme: with_main_fields(self.theme, with_overrides(light_theme(), overrides)), ..self }),
    {
        let theme = TitleBarTheme::light().overridden(&overrides);
        self.with_theme(theme)
    }

    /// Take those fields from the dark theme with selected fields overridden.
    pub fn with_custom_dark_theme(self, overrides: ThemeOverrides) -> (r: Self)
        ensures
            r == (TitleBar { theme: with_main_fields(self.theme, with_overrides(dark_theme(), overrides)), ..self }),
    {
        let theme = TitleBarTheme::dark().overridden(&overrides);
        self.with_theme(theme)
    }

    fn sync_with(&mut self, dark: bool)
        ensures
            *final(self) == if old(self).theme_mode == ThemeMode::System {
                TitleBar {
                    theme: with_sync_fields(old(self).theme, if dark { dark_theme() } else { light_theme() }),
                    ..*old(self)
                }
            } else {
                *old(self)
            },
    {
        if self.theme_mode == ThemeMode::System {
            let t = if dark {
                TitleBarTheme::dark()
            } else {
                TitleBarTheme::light()
            };
            self.theme = TitleBarTheme {
                background_color: t.background_color,
                hover_color: t.hover_color,
                close_hover_color: t.close_hover_color,
                close_icon_color: t.close_icon_color,
                maximize_icon_color: t.maximize_icon_color,
                restore_icon_color: t.restore_icon_color,
                minimize_icon_color: t.minimize_icon_color,
                title_color: t.title_color,
                menu_text_color: t.menu_text_color,
                menu_hover_color: t.menu_hover_color,
                ..self.theme
            };
        }
    }

    /// In `System` mode, follow the host toolkit's light or dark appearance:
    /// the window, title and menu colors come from the matching theme.
    pub fn sync_with_egui_theme(&mut self, toolkit_dark: bool)
        ensures
            *final(self) == if old(self).theme_mode == ThemeMode::System {
                TitleBar {
                    theme: with_sync_fields(old(self).theme, if toolkit_dark { dark_theme() } else { light_theme() }),
                    ..*old(self)
                }
            } else {
                *old(self)
            },
    {
        self.sync_with(toolkit_dark);
    }

    /// In `System` mode, follow the operating system's light or dark mode.
    pub fn sync_with_system_theme(&mut self, system_dark: bool)
        ensures
            *final(self) == if old(self).theme_mode == ThemeMode::System {
                TitleBar {
                    theme: with_sync_fields(old(self).theme, if system_dark { dark_theme() } else { light_theme() }),
                    ..*old(self)
                }
            } else {
                *old(self)
            },
    {
        self.sync_with(system_dark);
    }

    /// Switch to a theme that a provider looked up by id: `found` is its
    /// answer. A theme found is applied in full and its id remembered; none
    /// found is an error and changes nothing.
    pub fn switch_theme(&mut self, theme_id: &str, found: Option<TitleBarTheme>) -> (r: Result<(), ThemeError>)
        ensures
            match found {
                Some(t) => {
                    &&& r is Ok
                    &&& final(self).current_theme_id matches Some(id) && id@ == theme_id@
                    &&& *final(self) == (TitleBar { theme: t, current_theme_id: final(self).current_theme_id, ..*old(self) })
                },
                None => r == Err::<(), ThemeError>(ThemeError::ThemeNotFound) && *final(self) == *old(self),
            },
    {
        match found {
            Some(t) => {
                self.apply_theme(t);
                self.current_theme_id = Some(String::from_str(theme_id));
                Ok(())
            },
            None => Err(ThemeError::ThemeNotFound),
        }
    }

    /// Add a custom icon button with an optional callback, tooltip and shortcut.
    pub fn add_icon(self, callback: Option<C>, tooltip: Option<String>, shortcut: Option<KeyboardShortcut>) -> (r: Self)
        ensures
            r.custom_icons@ == self.custom_icons@.push(
                CustomIconButton { tooltip, hover_color: None, icon_color: None, callback, shortcut },
            ),
            r == (TitleBar { custom_icons: r.custom_icons, ..self }),
    {
        let mut s = self;
        s.custom_icons.push(CustomIconButton { tooltip, hover_color: None, icon_color: None, callback, shortcut });
        s
    }

    /// Set or clear the icon color of the custom icon at `index`; an index past
    /// the end changes nothing.
    pub fn set_custom_icon_color(&mut self, index: usize, color: Option<Color>)
        ensures
            index < old(self).custom_icons@.len() ==> final(self).custom_icons@ == old(self).custom_icons@.update(
                index as int,
                CustomIconButton { icon_color: color, ..old(self).custom_icons@[index as int] },
            ),
            index >= old(self).custom_icons@.len() ==> final(self).custom_icons@ == old(self).custom_icons@,
            *final(self) == (TitleBar { custom_icons: final(self).custom_icons, ..*old(self) }),
    {
        if index < self.custom_icons.len() {
            let mut icons = Vec::new();
            std::mem::swap(&mut icons, &mut self.custom_icons);
            let mut b = icons.remove(index);
            b.icon_color = color;
            icons.insert(index, b);
            proof {
                assert(icons@ =~= old(self).custom_icons@.update(
                    index as int,
                    CustomIconButton { icon_color: color, ..old(self).custom_icons@[index as int] },
                ));
            }
            self.custom_icons = icons;
        }
    }

    /// Check the custom icons' shortcuts against one frame; returns the indices
    /// of the icons whose shortcut was just pressed and which have a callback.
    pub fn handle_icon_shortcuts(&self, states: &mut ShortcutStates, input: &InputSnapshot) -> (r: Vec<usize>)
        requires
            old(states).wf(),
        ensures
            final(states).wf(),
            (r@, final(states)@) == shortcut_run(
                icon_slots(self.custom_icons@),
                old(states)@,
                input.keys_pressed@,
                input.modifiers,
            ),
    {
        let mut slots: Vec<(Option<KeyboardShortcut>, bool)> = Vec::new();
        let mut i: usize = 0;
        while i < self.custom_icons.len()
            invariant
                i <= self.custom_icons@.len(),
                slots@ == icon_slots(self.custom_icons@.take(i as int)),
            decreases self.custom_icons@.len() - i,
        {
            let b = &self.custom_icons[i];
            slots.push((b.shortcut, b.callback.is_some()));
            assert(icon_slots(self.custom_icons@.take(i + 1)) =~= icon_slots(self.custom_icons@.take(i as int)).push(
                (b.shortcut, b.callback is Some),
            ));
            i += 1;
        }
        assert(self.custom_icons@.take(i as int) =~= self.custom_icons@);
        run_shortcuts(&slots, states, input)
    }

    /// Add a top-level menu after the existing ones.
    pub fn add_menu(self, menu: MenuItem<C>) -> (r: Self)
        ensures
            r.menus.spec_menus() == self.menus.spec_menus().push(menu),
            r.menus.spec_state() == self.menus.spec_state(),
            r == (TitleBar { menus: r.menus, ..self }),
    {
        let mut s = self;
        s.menus.push(menu);
        s
    }

    /// Apply one input event to the menus; returns the entry to run, if any.
    pub fn handle_menu_event(&mut self, ev: MenuEvent) -> (r: Option<Activation>)
        ensures
            final(self).menus.spec_menus() == old(self).menus.spec_menus(),
            (final(self).menus.spec_state(), r) == step(old(self).menus.spec_menus(), old(self).menus.spec_state(), ev),
            *final(self) == (TitleBar { menus: final(self).menus, ..*old(self) }),
    {
        self.menus.handle(ev)
    }

    /// Check every menu entry's shortcut against one frame, whether or not its
    /// menu is open; returns the entries to run.
    pub fn handle_menu_shortcuts(&self, states: &mut ShortcutStates, input: &InputSnapshot) -> (r: Vec<Activation>)
        requires
            old(states).wf(),
        ensures
            final(states).wf(),
            (r@, final(states)@) == shortcut_activations_spec(
                self.menus.spec_menus(),
                old(states)@,
                input.keys_pressed@,
                input.modifiers,
            ),
    {
        self.menus.shortcut_activations(states, input)
    }
}

} // verus!

