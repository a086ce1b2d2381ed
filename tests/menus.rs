use std::cell::Cell;
use std::rc::Rc;

use egui_desktop::engine::{Activation, AltTap, MenuEvent, NavKey};
use egui_desktop::menu::{MenuItem, SubMenuItem};
use egui_desktop::menu_bar::MenuBar;
use egui_desktop::shortcuts::{InputSnapshot, Key, KeyboardShortcut, Modifiers, ShortcutStates};
use egui_desktop::titlebar::TitleBar;

type Callback = Box<dyn Fn()>;

fn counter() -> (Rc<Cell<u32>>, Callback) {
    let c = Rc::new(Cell::new(0));
    let c2 = c.clone();
    (c, Box::new(move || c2.set(c2.get() + 1)))
}

fn run(bar: &TitleBar<Callback>, act: Option<Activation>) {
    if let Some(a) = act {
        if let Some(cb) = bar.menus.callback_for(a) {
            cb();
        }
    }
}

fn file_menu() -> (TitleBar<Callback>, Rc<Cell<u32>>, Rc<Cell<u32>>) {
    let (new_count, new_cb) = counter();
    let (open_count, open_cb) = counter();
    let file = MenuItem::new("File")
        .add_subitem(SubMenuItem::new("New").with_shortcut(KeyboardShortcut::parse("ctrl+n")).with_callback(new_cb))
        .add_subitem(SubMenuItem::new("Open").with_shortcut(KeyboardShortcut::parse("ctrl+o")).with_callback(open_cb));
    let bar = TitleBar::with_title("App").add_menu(file);
    (bar, new_count, open_count)
}

#[test]
fn keyboard_navigation_runs_open_once() {
    let (mut bar, new_count, open_count) = file_menu();
    for ev in [MenuEvent::BeginFrame, MenuEvent::Key(NavKey::Alt), MenuEvent::Key(NavKey::Right), MenuEvent::Key(NavKey::Down)] {
        let act = bar.handle_menu_event(ev);
        assert!(act.is_none());
    }
    assert!(bar.menus.state().keyboard_active);
    assert_eq!(bar.menus.state().open_menu, Some(0));
    assert_eq!(bar.menus.state().selected_item, Some(0));
    assert!(bar.handle_menu_event(MenuEvent::Key(NavKey::Down)).is_none());
    assert_eq!(bar.menus.state().selected_item, Some(1));
    let act = bar.handle_menu_event(MenuEvent::Key(NavKey::Enter));
    assert_eq!(act, Some(Activation { menu: 0, item: 1, child: None }));
    run(&bar, act);
    assert_eq!(open_count.get(), 1);
    assert_eq!(new_count.get(), 0);
    let st = bar.menus.state();
    assert_eq!(st.open_menu, None);
    assert!(!st.keyboard_active);
}

fn two_menus() -> TitleBar<u32> {
    let file = MenuItem::new("File").add_subitem(SubMenuItem::new("New").with_callback(1));
    let edit = MenuItem::new("Edit")
        .add_subitem(SubMenuItem::new("Undo").with_callback(2).disabled())
        .add_subitem(
            SubMenuItem::new("Find")
                .add_child(SubMenuItem::new("Next").with_callback(3))
                .add_child(SubMenuItem::new("Previous").with_callback(4).disabled()),
        );
    TitleBar::icon_only().add_menu(file).add_menu(edit)
}

#[test]
fn opening_a_menu_closes_the_other() {
    let mut bar = two_menus();
    bar.handle_menu_event(MenuEvent::ClickHeader(0));
    assert_eq!(bar.menus.state().open_menu, Some(0));
    bar.handle_menu_event(MenuEvent::BeginFrame);
    bar.handle_menu_event(MenuEvent::ClickHeader(1));
    assert_eq!(bar.menus.state().open_menu, Some(1));
}

#[test]
fn clicking_the_open_header_closes_it() {
    let mut bar = two_menus();
    bar.handle_menu_event(MenuEvent::ClickHeader(1));
    bar.handle_menu_event(MenuEvent::BeginFrame);
    bar.handle_menu_event(MenuEvent::ClickHeader(1));
    assert_eq!(bar.menus.state().open_menu, None);
}

#[test]
fn outside_click_spares_the_frame_that_opened() {
    let mut bar = two_menus();
    bar.handle_menu_event(MenuEvent::BeginFrame);
    bar.handle_menu_event(MenuEvent::ClickHeader(0));
    bar.handle_menu_event(MenuEvent::ClickOutside);
    assert_eq!(bar.menus.state().open_menu, Some(0));
    bar.handle_menu_event(MenuEvent::BeginFrame);
    bar.handle_menu_event(MenuEvent::ClickOutside);
    assert_eq!(bar.menus.state().open_menu, None);
}

#[test]
fn disabled_entry_does_nothing() {
    let mut bar = two_menus();
    bar.handle_menu_event(MenuEvent::ClickHeader(1));
    let before = bar.menus.state();
    assert_eq!(bar.handle_menu_event(MenuEvent::ClickItem(0)), None);
    assert_eq!(bar.menus.state(), before);
}

#[test]
fn nested_entries_open_in_place_and_run() {
    let mut bar = two_menus();
    bar.handle_menu_event(MenuEvent::ClickHeader(1));
    assert_eq!(bar.handle_menu_event(MenuEvent::ClickItem(1)), None);
    assert_eq!(bar.menus.state().open_menu, Some(1));
    assert_eq!(bar.menus.state().open_child, Some(1));
    assert_eq!(bar.handle_menu_event(MenuEvent::ClickChild(1, 1)), None);
    let act = bar.handle_menu_event(MenuEvent::ClickChild(1, 0));
    assert_eq!(act, Some(Activation { menu: 1, item: 1, child: Some(0) }));
    assert_eq!(bar.menus.callback_for(act.unwrap()), Some(&3));
    assert_eq!(bar.menus.state().open_menu, None);
}

#[test]
fn leaf_click_runs_and_closes() {
    let mut bar = two_menus();
    bar.handle_menu_event(MenuEvent::ClickHeader(0));
    let act = bar.handle_menu_event(MenuEvent::ClickItem(0)).unwrap();
    assert_eq!(bar.menus.callback_for(act), Some(&1));
    assert_eq!(bar.menus.state().open_menu, None);
}

#[test]
fn keyboard_moves_into_and_out_of_nested_entries() {
    let mut bar = two_menus();
    bar.handle_menu_event(MenuEvent::Key(NavKey::Alt));
    assert_eq!(bar.menus.state().selected_menu, Some(0));
    bar.handle_menu_event(MenuEvent::Key(NavKey::Left));
    assert_eq!(bar.menus.state().selected_menu, Some(1));
    bar.handle_menu_event(MenuEvent::Key(NavKey::Down));
    // the first enabled entry of "Edit" is "Find"
    assert_eq!(bar.menus.state().selected_item, Some(1));
    bar.handle_menu_event(MenuEvent::Key(NavKey::Right));
    assert_eq!(bar.menus.state().open_child, Some(1));
    assert_eq!(bar.menus.state().selected_child, Some(0));
    bar.handle_menu_event(MenuEvent::Key(NavKey::Left));
    assert_eq!(bar.menus.state().open_child, None);
    assert_eq!(bar.menus.state().selected_item, Some(1));
    bar.handle_menu_event(MenuEvent::Key(NavKey::Up));
    assert_eq!(bar.menus.state().selected_item, Some(0));
    assert_eq!(bar.handle_menu_event(MenuEvent::Key(NavKey::Enter)), None);
    assert_eq!(bar.menus.state().open_menu, Some(1));
    bar.handle_menu_event(MenuEvent::Key(NavKey::Escape));
    assert_eq!(bar.menus.state().open_menu, None);
    assert!(bar.menus.state().keyboard_active);
    bar.handle_menu_event(MenuEvent::Key(NavKey::Escape));
    assert!(!bar.menus.state().keyboard_active);
}

#[test]
fn arrows_do_nothing_without_keyboard_navigation() {
    let mut bar = two_menus();
    let before = bar.menus.state();
    bar.handle_menu_event(MenuEvent::Key(NavKey::Down));
    bar.handle_menu_event(MenuEvent::Key(NavKey::Right));
    assert_eq!(bar.menus.state(), before);
}

#[test]
fn menu_shortcuts_run_with_menus_closed() {
    let (bar, new_count, open_count) = file_menu();
    let mut states = ShortcutStates::new();
    let ctrl = Modifiers { alt: false, ctrl: true, shift: false, command: false };
    let press = InputSnapshot { keys_pressed: vec![Key::O], modifiers: ctrl };
    let acts = bar.handle_menu_shortcuts(&mut states, &press);
    assert_eq!(acts, vec![Activation { menu: 0, item: 1, child: None }]);
    for a in &acts {
        run(&bar, Some(*a));
    }
    assert_eq!(open_count.get(), 1);
    assert_eq!(new_count.get(), 0);
    assert!(bar.handle_menu_shortcuts(&mut states, &press).is_empty());
}

#[test]
fn disabled_entries_do_not_run_by_shortcut() {
    let edit = MenuItem::new("Edit")
        .add_subitem(SubMenuItem::new("Undo").with_shortcut(KeyboardShortcut::parse("ctrl+z")).with_callback(9u32).disabled());
    let bar = TitleBar::icon_only().add_menu(edit);
    let mut states = ShortcutStates::new();
    let ctrl = Modifiers { alt: false, ctrl: true, shift: false, command: false };
    let press = InputSnapshot { keys_pressed: vec![Key::Z], modifiers: ctrl };
    assert!(bar.handle_menu_shortcuts(&mut states, &press).is_empty());
}

#[test]
fn cloning_drops_callbacks() {
    let item = SubMenuItem::new("Find").with_callback(5u32).add_child(SubMenuItem::new("Next").with_callback(6u32)).with_separator();
    let copy = item.clone();
    assert_eq!(copy.label, "Find");
    assert!(copy.callback.is_none());
    assert!(copy.separator_after);
    assert_eq!(copy.children.len(), 1);
    assert!(copy.children[0].callback.is_none());
    let menu = MenuItem::new("Edit").add_subitem(item).disabled();
    let m2 = menu.clone();
    assert!(!m2.enabled);
    assert!(m2.subitems[0].callback.is_none());
}

#[test]
fn menu_bar_labels_and_actions() {
    let bar = MenuBar::new().add_item("File", Some(1u32)).add_item("Help", None);
    assert_eq!(bar.items().len(), 2);
    assert_eq!(bar.items()[1].label, "Help");
    assert_eq!(bar.action_for(0), Some(&1));
    assert_eq!(bar.action_for(1), None);
    assert_eq!(bar.action_for(2), None);
}

#[test]
fn cloning_drops_callbacks_at_every_depth() {
    let deep = SubMenuItem::new("Top")
        .with_callback(1u32)
        .add_child(SubMenuItem::new("Mid").with_callback(2u32).add_child(SubMenuItem::new("Leaf").with_callback(3u32)));
    let copy = deep.clone();
    assert!(copy.callback.is_none());
    assert!(copy.children[0].callback.is_none());
    assert!(copy.children[0].children[0].callback.is_none());
    assert_eq!(copy.children[0].children[0].label, "Leaf");
}

#[test]
fn alt_tap_alone_toggles_but_alt_as_modifier_does_not() {
    let mut alt = AltTap::new();
    assert!(!alt.step(true, false));
    assert!(alt.step(false, false));
    assert!(!alt.step(true, false));
    assert!(!alt.step(true, true));
    assert!(!alt.step(true, false));
    assert!(!alt.step(false, false));
    assert!(!alt.step(false, false));
}
