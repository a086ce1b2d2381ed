//! Themes: the colors and sizes the title bar and its menus are drawn with.

use vstd::prelude::*;
use vstd::string::*;
use crate::titlebar::Platform;

verus! {

/// An sRGBA color, one byte per channel.
#[derive(Debug, Clone, Copy, PartialEq, Eq, Hash, Structural)]
pub struct Color {
    /// Red.
    pub r: u8,
    /// Green.
    pub g: u8,
    /// Blue.
    pub b: u8,
    /// Alpha; 255 is opaque.
    pub a: u8,
}

impl Color {
    /// An opaque color from its red, green and blue channels.
    pub fn from_rgb(r: u8, g: u8, b: u8) -> (c: Color)
        ensures
            c == (Color { r, g, b, a: 255 }),
    {
        Color { r, g, b, a: 255 }
    }
}

/// Theme mode selection for the title bar and related UI.
#[derive(Debug, Clone, Copy, PartialEq, Eq, Hash, Structural)]
pub enum ThemeMode {
    /// Light appearance.
    Light,
    /// Dark appearance.
    Dark,
    /// Follow the operating system preference.
    System,
}

/// Theme-related errors.
#[derive(Debug, Clone, Copy, PartialEq, Eq, Structural)]
pub enum ThemeError {
    /// Requested theme or id could not be found.
    ThemeNotFound,
}

/// Colors and text sizes used to render the title bar and menus.
#[derive(Debug, Clone, Copy, PartialEq, Eq, Structural)]
pub struct TitleBarTheme {
    /// Window/title bar background color.
    pub background_color: Color,
    /// Hover background color for interactive elements.
    pub hover_color: Color,
    /// Hover color for the close button.
    pub close_hover_color: Color,
    /// Icon color for the close button.
    pub close_icon_color: Color,
    /// Icon color for the maximize button.
    pub maximize_icon_color: Color,
    /// Icon color for the restore button.
    pub restore_icon_color: Color,
    /// Icon color for the minimize button.
    pub minimize_icon_color: Color,
    /// Title text color.
    pub title_color: Color,
    /// Menu text color.
    pub menu_text_color: Color,
    /// Menu text size in points.
    pub menu_text_size: u32,
    /// Menu hover background color.
    pub menu_hover_color: Color,
    /// Highlight color for keyboard selection in menus.
    pub keyboard_selection_color: Color,
    /// Submenu background color.
    pub submenu_background_color: Color,
    /// Submenu text color.
    pub submenu_text_color: Color,
    /// Submenu text size in points.
    pub submenu_text_size: u32,
    /// Submenu hover background color.
    pub submenu_hover_color: Color,
    /// Color of disabled submenu items.
    pub submenu_disabled_color: Color,
    /// Color of shortcut text in submenus.
    pub submenu_shortcut_color: Color,
    /// Submenu border color.
    pub submenu_border_color: Color,
    /// Highlight color for keyboard selection in submenus.
    pub submenu_keyboard_selection_color: Color,
}

/// Fields of a theme to replace; a field left `None` keeps the base theme's value.
#[derive(Debug, Clone, Copy, PartialEq, Eq, Structural)]
pub struct ThemeOverrides {
    /// Replaces `background_color`.
    pub background_color: Option<Color>,
    /// Replaces `hover_color`.
    pub hover_color: Option<Color>,
    /// Replaces `close_hover_color`.
    pub close_hover_color: Option<Color>,
    /// Replaces `close_icon_color`.
    pub close_icon_color: Option<Color>,
    /// Replaces `maximize_icon_color`.
    pub maximize_icon_color: Option<Color>,
    /// Replaces `restore_icon_color`.
    pub restore_icon_color: Option<Color>,
    /// Replaces `minimize_icon_color`.
    pub minimize_icon_color: Option<Color>,
    /// Replaces `title_color`.
    pub title_color: Option<Color>,
    /// Replaces `menu_text_color`.
    pub menu_text_color: Option<Color>,
    /// Replaces `menu_text_size`.
    pub menu_text_size: Option<u32>,
    /// Replaces `menu_hover_color`.
    pub menu_hover_color: Option<Color>,
    /// Replaces `keyboard_selection_color`.
    pub keyboard_selection_color: Option<Color>,
    /// Replaces `submenu_background_color`.
    pub submenu_background_color: Option<Color>,
    /// Replaces `submenu_text_color`.
    pub submenu_text_color: Option<Color>,
    /// Replaces `submenu_hover_color`.
    pub submenu_hover_color: Option<Color>,
    /// Replaces `submenu_shortcut_color`.
    pub submenu_shortcut_color: Option<Color>,
    /// Replaces `submenu_keyboard_selection_color`.
    pub submenu_keyboard_selection_color: Option<Color>,
}

/// The built-in light theme.
pub open spec fn light_theme() -> TitleBarTheme {
    TitleBarTheme {
        background_color: Color { r: 255, g: 255, b: 255, a: 255 },
        hover_color: Color { r: 230, g: 230, b: 230, a: 255 },
        close_hover_color: Color { r: 232, g: 17, b: 35, a: 255 },
        close_icon_color: Color { r: 100, g: 100, b: 100, a: 255 },
        maximize_icon_color: Color { r: 100, g: 100, b: 100, a: 255 },
        restore_icon_color: Color { r: 100, g: 100, b: 100, a: 255 },
        minimize_icon_color: Color { r: 100, g: 100, b: 100, a: 255 },
        title_color: Color { r: 50, g: 50, b: 50, a: 255 },
        menu_text_color: Color { r: 50, g: 50, b: 50, a: 255 },
        menu_text_size: 12,
        menu_hover_color: Color { r: 230, g: 230, b: 230, a: 255 },
        keyboard_selection_color: Color { r: 0, g: 120, b: 215, a: 255 },
        submenu_background_color: Color { r: 255, g: 255, b: 255, a: 255 },
        submenu_text_color: Color { r: 50, g: 50, b: 50, a: 255 },
        submenu_text_size: 11,
        submenu_hover_color: Color { r: 240, g: 240, b: 240, a: 255 },
        submenu_disabled_color: Color { r: 150, g: 150, b: 150, a: 255 },
        submenu_shortcut_color: Color { r: 100, g: 100, b: 100, a: 255 },
        submenu_border_color: Color { r: 200, g: 200, b: 200, a: 255 },
        submenu_keyboard_selection_color: Color { r: 0, g: 120, b: 215, a: 255 },
    }
}

/// The built-in dark theme.
pub open spec fn dark_theme() -> TitleBarTheme {
    TitleBarTheme {
        background_color: Color { r: 30, g: 30, b: 30, a: 255 },
        hover_color: Color { r: 60, g: 60, b: 60, a: 255 },
        close_hover_color: Color { r: 232, g: 17, b: 35, a: 255 },
        close_icon_color: Color { r: 200, g: 200, b: 200, a: 255 },
        maximize_icon_color: Color { r: 200, g: 200, b: 200, a: 255 },
        restore_icon_color: Color { r: 200, g: 200, b: 200, a: 255 },
        minimize_icon_color: Color { r: 200, g: 200, b: 200, a: 255 },
        title_color: Color { r: 200, g: 200, b: 200, a: 255 },
        menu_text_color: Color { r: 200, g: 200, b: 200, a: 255 },
        menu_text_size: 12,
        menu_hover_color: Color { r: 60, g: 60, b: 60, a: 255 },
        keyboard_selection_color: Color { r: 30, g: 144, b: 255, a: 255 },
        submenu_background_color: Color { r: 40, g: 40, b: 40, a: 255 },
        submenu_text_color: Color { r: 200, g: 200, b: 200, a: 255 },
        submenu_text_size: 11,
        submenu_hover_color: Color { r: 70, g: 70, b: 70, a: 255 },
        submenu_disabled_color: Color { r: 120, g: 120, b: 120, a: 255 },
        submenu_shortcut_color: Color { r: 160, g: 160, b: 160, a: 255 },
        submenu_border_color: Color { r: 80, g: 80, b: 80, a: 255 },
        submenu_keyboard_selection_color: Color { r: 30, g: 144, b: 255, a: 255 },
    }
}

/// The value given, or else the default.
pub open spec fn or_else<T>(o: Option<T>, d: T) -> T {
    match o {
        Some(v) => v,
        None => d,
    }
}

/// A theme with the given fields replaced; the submenu text size, disabled
/// color and border color always come from the base.
pub open spec fn with_overrides(base: TitleBarTheme, o: ThemeOverrides) -> TitleBarTheme {
    TitleBarTheme {
        background_color: or_else(o.background_color, base.background_color),
        hover_color: or_else(o.hover_color, base.hover_color),
        close_hover_color: or_else(o.close_hover_color, base.close_hover_color),
        close_icon_color: or_else(o.close_icon_color, base.close_icon_color),
        maximize_icon_color: or_else(o.maximize_icon_color, base.maximize_icon_color),
        restore_icon_color: or_else(o.restore_icon_color, base.restore_icon_color),
        minimize_icon_color: or_else(o.minimize_icon_color, base.minimize_icon_color),
        title_color: or_else(o.title_color, base.title_color),
        menu_text_color: or_else(o.menu_text_color, base.menu_text_color),
        menu_text_size: or_else(o.menu_text_size, base.menu_text_size),
        menu_hover_color: or_else(o.menu_hover_color, base.menu_hover_color),
        keyboard_selection_color: or_else(o.keyboard_selection_color, base.keyboard_selection_color),
        submenu_background_color: or_else(o.submenu_background_color, base.submenu_background_color),
        submenu_text_color: or_else(o.submenu_text_color, base.submenu_text_color),
        submenu_text_size: base.submenu_text_size,
        submenu_hover_color: or_else(o.submenu_hover_color, base.submenu_hover_color),
        submenu_disabled_color: base.submenu_disabled_color,
        submenu_shortcut_color: or_else(o.submenu_shortcut_color, base.submenu_shortcut_color),
        submenu_border_color: base.submenu_border_color,
        submenu_keyboard_selection_color: or_else(o.submenu_keyboard_selection_color, base.submenu_keyboard_selection_color),
    }
}

/// No field replaced.
pub open spec fn no_overrides() -> ThemeOverrides {
    ThemeOverrides {
        background_color: None,
        hover_color: None,
        close_hover_color: None,
        close_icon_color: None,
        maximize_icon_color: None,
        restore_icon_color: None,
        minimize_icon_color: None,
        title_color: None,
        menu_text_color: None,
        menu_text_size: None,
        menu_hover_color: None,
        keyboard_selection_color: None,
        submenu_background_color: None,
        submenu_text_color: None,
        submenu_hover_color: None,
        submenu_shortcut_color: None,
        submenu_keyboard_selection_color: None,
    }
}

/// The theme that a mode resolves to; `System` follows whether the operating
/// system is in dark mode.
pub open spec fn theme_for(mode: ThemeMode, system_dark: bool) -> TitleBarTheme {
    match mode {
        ThemeMode::Light => light_theme(),
        ThemeMode::Dark => dark_theme(),
        ThemeMode::System => if system_dark {
            dark_theme()
        } else {
            light_theme()
        },
    }
}

/// The value given, or else the default.
pub(crate) fn unwrap_or<T: Copy>(o: Option<T>, d: T) -> (r: T)
    ensures
        r == or_else(o, d),
{
    match o {
        Some(v) => v,
        None => d,
    }
}

impl ThemeOverrides {
    /// Overrides that replace nothing.
    pub fn none() -> (r: ThemeOverrides)
        ensures
            r == no_overrides(),
    {
        ThemeOverrides {
            background_color: None,
            hover_color: None,
            close_hover_color: None,
            close_icon_color: None,
            maximize_icon_color: None,
            restore_icon_color: None,
            minimize_icon_color: None,
            title_color: None,
            menu_text_color: None,
            menu_text_size: None,
            menu_hover_color: None,
            keyboard_selection_color: None,
            submenu_background_color: None,
            submenu_text_color: None,
            submenu_hover_color: None,
            submenu_shortcut_color: None,
            submenu_keyboard_selection_color: None,
        }
    }
}

impl TitleBarTheme {
    /// Built-in light theme.
    pub fn light() -> (t: TitleBarTheme)
        ensures
            t == light_theme(),
    {
        TitleBarTheme {
            background_color: Color::from_rgb(255, 255, 255),
            hover_color: Color::from_rgb(230, 230, 230),
            close_hover_color: Color::from_rgb(232, 17, 35),
            close_icon_color: Color::from_rgb(100, 100, 100),
            maximize_icon_color: Color::from_rgb(100, 100, 100),
            restore_icon_color: Color::from_rgb(100, 100, 100),
            minimize_icon_color: Color::from_rgb(100, 100, 100),
            title_color: Color::from_rgb(50, 50, 50),
            menu_text_color: Color::from_rgb(50, 50, 50),
            menu_text_size: 12,
            menu_hover_color: Color::from_rgb(230, 230, 230),
            keyboard_selection_color: Color::from_rgb(0, 120, 215),
            submenu_background_color: Color::from_rgb(255, 255, 255),
            submenu_text_color: Color::from_rgb(50, 50, 50),
            submenu_text_size: 11,
            submenu_hover_color: Color::from_rgb(240, 240, 240),
            submenu_disabled_color: Color::from_rgb(150, 150, 150),
            submenu_shortcut_color: Color::from_rgb(100, 100, 100),
            submenu_border_color: Color::from_rgb(200, 200, 200),
            submenu_keyboard_selection_color: Color::from_rgb(0, 120, 215),
        }
    }

    /// Built-in dark theme.
    pub fn dark() -> (t: TitleBarTheme)
        ensures
            t == dark_theme(),
    {
        TitleBarTheme {
            background_color: Color::from_rgb(30, 30, 30),
            hover_color: Color::from_rgb(60, 60, 60),
            close_hover_color: Color::from_rgb(232, 17, 35),
            close_icon_color: Color::from_rgb(200, 200, 200),
            maximize_icon_color: Color::from_rgb(200, 200, 200),
            restore_icon_color: Color::from_rgb(200, 200, 200),
            minimize_icon_color: Color::from_rgb(200, 200, 200),
            title_color: Color::from_rgb(200, 200, 200),
            menu_text_color: Color::from_rgb(200, 200, 200),
            menu_text_size: 12,
            menu_hover_color: Color::from_rgb(60, 60, 60),
            keyboard_selection_color: Color::from_rgb(30, 144, 255),
            submenu_background_color: Color::from_rgb(40, 40, 40),
            submenu_text_color: Color::from_rgb(200, 200, 200),
            submenu_text_size: 11,
            submenu_hover_color: Color::from_rgb(70, 70, 70),
            submenu_disabled_color: Color::from_rgb(120, 120, 120),
            submenu_shortcut_color: Color::from_rgb(160, 160, 160),
            submenu_border_color: Color::from_rgb(80, 80, 80),
            submenu_keyboard_selection_color: Color::from_rgb(30, 144, 255),
        }
    }

    /// This theme with the given fields replaced.
    pub fn overridden(&self, o: &ThemeOverrides) -> (t: TitleBarTheme)
        ensures
            t == with_overrides(*self, *o),
    {
        TitleBarTheme {
            background_color: unwrap_or(o.background_color, self.background_color),
            hover_color: unwrap_or(o.hover_color, self.hover_color),
            close_hover_color: unwrap_or(o.close_hover_color, self.close_hover_color),
            close_icon_color: unwrap_or(o.close_icon_color, self.close_icon_color),
            maximize_icon_color: unwrap_or(o.maximize_icon_color, self.maximize_icon_color),
            restore_icon_color: unwrap_or(o.restore_icon_color, self.restore_icon_color),
            minimize_icon_color: unwrap_or(o.minimize_icon_color, self.minimize_icon_color),
            title_color: unwrap_or(o.title_color, self.title_color),
            menu_text_color: unwrap_or(o.menu_text_color, self.menu_text_color),
            menu_text_size: unwrap_or(o.menu_text_size, self.menu_text_size),
            menu_hover_color: unwrap_or(o.menu_hover_color, self.menu_hover_color),
            keyboard_selection_color: unwrap_or(o.keyboard_selection_color, self.keyboard_selection_color),
            submenu_background_color: unwrap_or(o.submenu_background_color, self.submenu_background_color),
            submenu_text_color: unwrap_or(o.submenu_text_color, self.submenu_text_color),
            submenu_text_size: self.submenu_text_size,
            submenu_hover_color: unwrap_or(o.submenu_hover_color, self.submenu_hover_color),
            submenu_disabled_color: self.submenu_disabled_color,
            submenu_shortcut_color: unwrap_or(o.submenu_shortcut_color, self.submenu_shortcut_color),
            submenu_border_color: self.submenu_border_color,
            submenu_keyboard_selection_color: unwrap_or(o.submenu_keyboard_selection_color, self.submenu_keyboard_selection_color),
        }
    }

    /// Light theme with selected fields overridden.
    pub fn light_with_overrides(
        background_color: Option<Color>,
        hover_color: Option<Color>,
        close_hover_color: Option<Color>,
        close_icon_color: Option<Color>,
        maximize_icon_color: Option<Color>,
        restore_icon_color: Option<Color>,
        minimize_icon_color: Option<Color>,
        title_color: Option<Color>,
        menu_text_color: Option<Color>,
        menu_text_size: Option<u32>,
        menu_hover_color: Option<Color>,
        keyboard_selection_color: Option<Color>,
        submenu_background_color: Option<Color>,
        submenu_text_color: Option<Color>,
        submenu_hover_color: Option<Color>,
        submenu_shortcut_color: Option<Color>,
        submenu_keyboard_selection_color: Option<Color>,
    ) -> (t: TitleBarTheme)
        ensures
            t == with_overrides(light_theme(), (ThemeOverrides {
                background_color,
                hover_color,
                close_hover_color,
                close_icon_color,
                maximize_icon_color,
                restore_icon_color,
                minimize_icon_color,
                title_color,
                menu_text_color,
                menu_text_size,
                menu_hover_color,
                keyboard_selection_color,
                submenu_background_color,
                submenu_text_color,
                submenu_hover_color,
                submenu_shortcut_color,
                submenu_keyboard_selection_color,
            })),
    {
        let o = ThemeOverrides {
            background_color,
            hover_color,
            close_hover_color,
            close_icon_color,
            maximize_icon_color,
            restore_icon_color,
            minimize_icon_color,
            title_color,
            menu_text_color,
            menu_text_size,
            menu_hover_color,
            keyboard_selection_color,
            submenu_background_color,
            submenu_text_color,
            submenu_hover_color,
            submenu_shortcut_color,
            submenu_keyboard_selection_color,
        };
        Self::light().overridden(&o)
    }

    /// Dark theme with selected fields overridden.
    pub fn dark_with_overrides(
        background_color: Option<Color>,
        hover_color: Option<Color>,
        close_hover_color: Option<Color>,
        close_icon_color: Option<Color>,
        maximize_icon_color: Option<Color>,
        restore_icon_color: Option<Color>,
        minimize_icon_color: Option<Color>,
        title_color: Option<Color>,
        menu_text_color: Option<Color>,
        menu_text_size: Option<u32>,
        menu_hover_color: Option<Color>,
        keyboard_selection_color: Option<Color>,
        submenu_background_color: Option<Color>,
        submenu_text_color: Option<Color>,
        submenu_hover_color: Option<Color>,
        submenu_shortcut_color: Option<Color>,
        submenu_keyboard_selection_color: Option<Color>,
    ) -> (t: TitleBarTheme)
        ensures
            t == with_overrides(dark_theme(), (ThemeOverrides {
                background_color,
                hover_color,
                close_hover_color,
                close_icon_color,
                maximize_icon_color,
                restore_icon_color,
                minimize_icon_color,
                title_color,
                menu_text_color,
                menu_text_size,
                menu_hover_color,
                keyboard_selection_color,
                submenu_background_color,
                submenu_text_color,
                submenu_hover_color,
                submenu_shortcut_color,
                submenu_keyboard_selection_color,
            })),
    {
        let o = ThemeOverrides {
            background_color,
            hover_color,
            close_hover_color,
            close_icon_color,
            maximize_icon_color,
            restore_icon_color,
            minimize_icon_color,
            title_color,
            menu_text_color,
            menu_text_size,
            menu_hover_color,
            keyboard_selection_color,
            submenu_background_color,
            submenu_text_color,
            submenu_hover_color,
            submenu_shortcut_color,
            submenu_keyboard_selection_color,
        };
        Self::dark().overridden(&o)
    }

    /// The theme that a mode resolves to, given whether the operating system
    /// reports dark mode (a failed query counts as light).
    pub fn for_mode(mode: ThemeMode, system_dark: bool) -> (t: TitleBarTheme)
        ensures
            t == theme_for(mode, system_dark),
    {
        match mode {
            ThemeMode::Light => Self::light(),
            ThemeMode::Dark => Self::dark(),
            ThemeMode::System => if system_dark {
                Self::dark()
            } else {
                Self::light()
            },
        }
    }
}

impl Default for TitleBarTheme {
    fn default() -> (t: TitleBarTheme)
        ensures
            t == light_theme(),
    {
        Self::light()
    }
}

/// Overriding only the background of the light theme gives the light theme
/// with that background and every other field unchanged.
pub proof fn light_background_override(x: Color)
    ensures
        with_overrides(light_theme(), ThemeOverrides { background_color: Some(x), ..no_overrides() })
            == (TitleBarTheme { background_color: x, ..light_theme() }),
{
}

/// Overriding nothing gives the base theme back.
pub proof fn no_override_keeps_base(base: TitleBarTheme)
    ensures
        with_overrides(base, no_overrides()) == base,
{
}

/// Whether `needle` occurs in `hay` as a run of consecutive characters.
pub open spec fn occurs_in(needle: Seq<char>, hay: Seq<char>) -> bool {
    exists|i: int| 0 <= i && i + needle.len() <= hay.len() && #[trigger] hay.subrange(i, i + needle.len()) == needle
}

fn occurs_at(hay: &str, n: usize, needle: &str, m: usize, i: usize) -> (r: bool)
    requires
        n == hay@.len(),
        m == needle@.len(),
        i + m <= n,
    ensures
        r == (hay@.subrange(i as int, i + m) == needle@),
{
    let mut j: usize = 0;
    while j < m
        invariant
            n == hay@.len(),
            m == needle@.len(),
            i + m <= n,
            j <= m,
            forall|k: int| 0 <= k < j ==> hay@[i + k] == needle@[k],
        decreases m - j,
    {
        if hay.get_char(i + j) != needle.get_char(j) {
            assert(hay@.subrange(i as int, i + m)[j as int] != needle@[j as int]);
            return false;
        }
        j += 1;
    }
    assert(hay@.subrange(i as int, i + m) =~= needle@);
    true
}

fn contains_text(hay: &str, needle: &str) -> (r: bool)
    ensures
        r == occurs_in(needle@, hay@),
{
    let n = hay.unicode_len();
    let m = needle.unicode_len();
    if m > n {
        return false;
    }
    let mut i: usize = 0;
    while i <= n - m
        invariant
            n == hay@.len(),
            m == needle@.len(),
            m <= n,
            i <= n - m + 1,
            forall|k: int| 0 <= k < i ==> #[trigger] hay@.subrange(k, k + m) != needle@,
        decreases n - m + 1 - i,
    {
        if occurs_at(hay, n, needle, m, i) {
            return true;
        }
        if i == n - m {
            return false;
        }
        i += 1;
    }
    false
}

/// What the operating system's theme query printed means: on Windows the
/// registry value `AppsUseLightTheme` is not 1; on macOS the interface style
/// is "Dark"; on Linux the GTK theme name says dark. Elsewhere, light.
pub open spec fn reports_dark(platform: Platform, output: Seq<char>) -> bool {
    match platform {
        Platform::Windows => !occurs_in("0x1"@, output),
        Platform::MacOs => occurs_in("Dark"@, output),
        Platform::Linux => occurs_in("dark"@, output) || occurs_in("Dark"@, output),
        Platform::Other => false,
    }
}

/// Whether the output of the operating system's theme query says dark mode.
/// A query that could not run counts as light, and the host passes no output.
pub fn system_reports_dark(platform: Platform, output: &str) -> (r: bool)
    ensures
        r == reports_dark(platform, output@),
{
    match platform {
        Platform::Windows => !contains_text(output, "0x1"),
        Platform::MacOs => contains_text(output, "Dark"),
        Platform::Linux => contains_text(output, "dark") || contains_text(output, "Dark"),
        Platform::Other => false,
    }
}

} // verus!
