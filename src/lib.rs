//! Desktop window chrome for immediate-mode interfaces: a title bar with a
//! menu bar, keyboard shortcuts and keyboard navigation, and themes.

/// Keyboard shortcuts.
pub mod shortcuts;
/// Theme colors and sizes.
pub mod theme;
/// Menus and their entries.
pub mod menu;
/// The menu interaction engine.
pub mod engine;
/// Title bar options.
pub mod options;
/// The title bar.
pub mod titlebar;
/// A minimal menu bar.
pub mod menu_bar;
