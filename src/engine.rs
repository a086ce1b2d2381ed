//! The menu interaction engine: which menu is open, what is selected, and
//! which entry is activated, as a function of the previous state and one
//! input event. The host feeds it the events of each frame in order.

use vstd::prelude::*;
use crate::menu::{MenuItem, SubMenuItem};
use crate::shortcuts::{run_shortcuts, shortcut_run, InputSnapshot, Key, KeyboardShortcut, Modifiers, ShortcutStates};

verus! {

/// Keys that drive keyboard navigation of the menus.
#[derive(Debug, Clone, Copy, PartialEq, Eq, Hash, Structural)]
pub enum NavKey {
    Alt,
    Left,
    Right,
    Up,
    Down,
    Enter,
    Escape,
}

/// One input event, as the host observed it.
#[derive(Debug, Clone, Copy, PartialEq, Eq, Hash, Structural)]
pub enum MenuEvent {
    /// A new frame starts.
    BeginFrame,
    /// A click on the header of top-level menu `i`.
    ClickHeader(usize),
    /// A click outside every menu header and open menu.
    ClickOutside,
    /// A click on entry `j` of the open menu.
    ClickItem(usize),
    /// A click on nested entry `k` of entry `j` of the open menu.
    ClickChild(usize, usize),
    /// A navigation key press.
    Key(NavKey),
}

/// An entry to run: entry `item` of menu `menu`, or its nested entry `child`.
#[derive(Debug, Clone, Copy, PartialEq, Eq, Hash, Structural)]
pub struct Activation {
    /// Index of the top-level menu.
    pub menu: usize,
    /// Index of the entry in that menu.
    pub item: usize,
    /// Index of the nested entry, if a nested entry was activated.
    pub child: Option<usize>,
}

/// Interaction state of a menu bar.
#[derive(Debug, Clone, Copy, PartialEq, Eq, Hash, Structural)]
pub struct MenuState {
    /// The open top-level menu, if any (at most one).
    pub open_menu: Option<usize>,
    /// Set when a click opened a menu in this frame, so that the same click
    /// does not also count as a click outside.
    pub just_opened: bool,
    /// Whether keyboard navigation is active.
    pub keyboard_active: bool,
    /// Top-level menu selected by the keyboard.
    pub selected_menu: Option<usize>,
    /// Selected entry of the open menu.
    pub selected_item: Option<usize>,
    /// Entry of the open menu whose nested entries are shown.
    pub open_child: Option<usize>,
    /// Selected nested entry of that entry.
    pub selected_child: Option<usize>,
}

/// The entries of menu `i`.
pub open spec fn items_of<C>(menus: Seq<MenuItem<C>>, i: int) -> Seq<SubMenuItem<C>> {
    menus[i].subitems@
}

/// The nested entries of entry `j` of menu `i`.
pub open spec fn children_of<C>(menus: Seq<MenuItem<C>>, i: int, j: int) -> Seq<SubMenuItem<C>> {
    items_of(menus, i)[j].children@
}

/// The index of the first enabled entry at or after `j`.
pub open spec fn first_enabled_from<C>(items: Seq<SubMenuItem<C>>, j: usize) -> Option<usize>
    decreases items.len() - j,
{
    if j >= items.len() {
        None
    } else if items[j as int].enabled {
        Some(j)
    } else if j == usize::MAX {
        None
    } else {
        first_enabled_from(items, (j + 1) as usize)
    }
}

/// Nothing open: no menu, no selected entry, no nested list.
pub open spec fn close_all(s: MenuState) -> MenuState {
    MenuState { open_menu: None, selected_item: None, open_child: None, selected_child: None, ..s }
}

/// After an entry ran: everything closed and keyboard navigation off.
pub open spec fn finished(s: MenuState) -> MenuState {
    MenuState { keyboard_active: false, selected_menu: None, ..close_all(s) }
}

/// Menu `i` opened from the keyboard, its first enabled entry selected.
pub open spec fn open_by_key<C>(menus: Seq<MenuItem<C>>, s: MenuState, i: int) -> MenuState {
    MenuState {
        open_menu: Some(i as usize),
        selected_menu: Some(i as usize),
        selected_item: first_enabled_from(items_of(menus, i), 0),
        open_child: None,
        selected_child: None,
        ..s
    }
}

/// The state after a click on the header of menu `i`.
pub open spec fn on_header<C>(menus: Seq<MenuItem<C>>, s: MenuState, i: int) -> MenuState {
    if i >= menus.len() || !menus[i].enabled {
        s
    } else if s.open_menu == Some(i as usize) {
        close_all(s)
    } else {
        MenuState {
            open_menu: Some(i as usize),
            just_opened: true,
            selected_menu: Some(i as usize),
            selected_item: None,
            open_child: None,
            selected_child: None,
            ..s
        }
    }
}

/// The state after a click outside every menu: an open menu closes unless a
/// click opened it in this frame.
pub open spec fn on_outside(s: MenuState) -> MenuState {
    if s.open_menu is Some && !s.just_opened {
        close_all(s)
    } else {
        s
    }
}

/// A click on entry `j` of the open menu: a disabled entry does nothing, an
/// entry with nested entries shows or hides them, any other entry runs.
pub open spec fn on_item<C>(menus: Seq<MenuItem<C>>, s: MenuState, j: int) -> (MenuState, Option<Activation>) {
    match s.open_menu {
        None => (s, None),
        Some(i) => {
            let items = items_of(menus, i as int);
            if j >= items.len() || !items[j].enabled {
                (s, None)
            } else if items[j].children@.len() > 0 {
                if s.open_child == Some(j as usize) {
                    (MenuState { open_child: None, selected_child: None, ..s }, None)
                } else {
                    (MenuState { open_child: Some(j as usize), selected_item: Some(j as usize), selected_child: None, ..s }, None)
                }
            } else {
                (finished(s), Some(Activation { menu: i, item: j as usize, child: None }))
            }
        },
    }
}

/// A click on nested entry `k` of entry `j`: it runs if its list is shown and
/// it is enabled and has no entries of its own.
pub open spec fn on_child<C>(menus: Seq<MenuItem<C>>, s: MenuState, j: int, k: int) -> (MenuState, Option<Activation>) {
    match s.open_menu {
        None => (s, None),
        Some(i) => {
            if s.open_child != Some(j as usize) {
                (s, None)
            } else {
                let cs = children_of(menus, i as int, j);
                if k >= cs.len() || !cs[k].enabled || cs[k].children@.len() > 0 {
                    (s, None)
                } else {
                    (finished(s), Some(Activation { menu: i, item: j as usize, child: Some(k as usize) }))
                }
            }
        },
    }
}

/// The next index after `c` among `n`, wrapping; the first if there is none.
pub open spec fn next_index(c: Option<usize>, n: int) -> usize {
    match c {
        None => 0,
        Some(j) => if j + 1 < n {
            (j + 1) as usize
        } else {
            0
        },
    }
}

/// The index before `c` among `n`, wrapping; the last if there is none.
pub open spec fn prev_index(c: Option<usize>, n: int) -> usize {
    match c {
        None => (n - 1) as usize,
        Some(j) => if j == 0 {
            (n - 1) as usize
        } else {
            (j - 1) as usize
        },
    }
}

/// Select top-level menu `t`; if a menu was open, menu `t` opens in its
/// place (or all closes, where `t` is disabled).
pub open spec fn select_menu<C>(menus: Seq<MenuItem<C>>, s: MenuState, t: int) -> MenuState {
    if s.open_menu is Some {
        if menus[t].enabled {
            open_by_key(menus, s, t)
        } else {
            MenuState { selected_menu: Some(t as usize), ..close_all(s) }
        }
    } else {
        MenuState { selected_menu: Some(t as usize), ..s }
    }
}

/// A navigation key press.
pub open spec fn on_key<C>(menus: Seq<MenuItem<C>>, s: MenuState, key: NavKey) -> (MenuState, Option<Activation>) {
    let n = menus.len() as int;
    if key == NavKey::Alt {
        if s.keyboard_active {
            (MenuState { keyboard_active: false, selected_menu: None, ..close_all(s) }, None)
        } else {
            let sel = match s.open_menu {
                Some(i) => Some(i),
                None => if n > 0 {
                    Some(0usize)
                } else {
                    None
                },
            };
            (MenuState { keyboard_active: true, selected_menu: sel, ..s }, None)
        }
    } else if !s.keyboard_active {
        (s, None)
    } else {
        match key {
            NavKey::Right => match (s.open_menu, s.open_child, s.selected_item) {
                (Some(i), None, Some(j)) if items_of(menus, i as int)[j as int].enabled
                    && items_of(menus, i as int)[j as int].children@.len() > 0 => (
                    MenuState { open_child: Some(j), selected_child: Some(0usize), ..s },
                    None,
                ),
                (_, Some(_), _) => (s, None),
                _ => if n == 0 {
                    (s, None)
                } else {
                    (select_menu(menus, s, next_index(s.selected_menu, n) as int), None)
                },
            },
            NavKey::Left => match s.open_child {
                Some(j) => (MenuState { open_child: None, selected_child: None, selected_item: Some(j), ..s }, None),
                None => if n == 0 {
                    (s, None)
                } else {
                    (select_menu(menus, s, prev_index(s.selected_menu, n) as int), None)
                },
            },
            NavKey::Down => match s.open_menu {
                None => match s.selected_menu {
                    Some(i) if menus[i as int].enabled => (open_by_key(menus, s, i as int), None),
                    _ => (s, None),
                },
                Some(i) => match s.open_child {
                    Some(j) => {
                        let m = children_of(menus, i as int, j as int).len() as int;
                        (MenuState { selected_child: Some(next_index(s.selected_child, m)), ..s }, None)
                    },
                    None => {
                        let m = items_of(menus, i as int).len() as int;
                        if m == 0 {
                            (s, None)
                        } else {
                            (MenuState { selected_item: Some(next_index(s.selected_item, m)), ..s }, None)
                        }
                    },
                },
            },
            NavKey::Up => match s.open_menu {
                None => (s, None),
                Some(i) => match s.open_child {
                    Some(j) => {
                        let m = children_of(menus, i as int, j as int).len() as int;
                        (MenuState { selected_child: Some(prev_index(s.selected_child, m)), ..s }, None)
                    },
                    None => {
                        let m = items_of(menus, i as int).len() as int;
                        if m == 0 {
                            (s, None)
                        } else {
                            (MenuState { selected_item: Some(prev_index(s.selected_item, m)), ..s }, None)
                        }
                    },
                },
            },
            NavKey::Enter => match s.open_menu {
                None => match s.selected_menu {
                    Some(i) if menus[i as int].enabled => (open_by_key(menus, s, i as int), None),
                    _ => (s, None),
                },
                Some(i) => match (s.open_child, s.selected_child, s.selected_item) {
                    (Some(j), Some(k), _) => {
                        let c = children_of(menus, i as int, j as int)[k as int];
                        if c.enabled && c.children@.len() == 0 {
                            (finished(s), Some(Activation { menu: i, item: j, child: Some(k) }))
                        } else {
                            (s, None)
                        }
                    },
                    (None, _, Some(j)) => {
                        let it = items_of(menus, i as int)[j as int];
                        if !it.enabled {
                            (s, None)
                        } else if it.children@.len() > 0 {
                            (MenuState { open_child: Some(j), selected_child: Some(0usize), ..s }, None)
                        } else {
                            (finished(s), Some(Activation { menu: i, item: j, child: None }))
                        }
                    },
                    _ => (s, None),
                },
            },
            _ => match (s.open_child, s.open_menu) {
                (Some(j), _) => (MenuState { open_child: None, selected_child: None, selected_item: Some(j), ..s }, None),
                (None, Some(_)) => (close_all(s), None),
                (None, None) => (MenuState { keyboard_active: false, selected_menu: None, ..s }, None),
            },
        }
    }
}

/// One transition: the state after an event, and the entry it activates, if any.
pub open spec fn step<C>(menus: Seq<MenuItem<C>>, s: MenuState, ev: MenuEvent) -> (MenuState, Option<Activation>) {
    match ev {
        MenuEvent::BeginFrame => (MenuState { just_opened: false, ..s }, None),
        MenuEvent::ClickHeader(i) => (on_header(menus, s, i as int), None),
        MenuEvent::ClickOutside => (on_outside(s), None),
        MenuEvent::ClickItem(j) => on_item(menus, s, j as int),
        MenuEvent::ClickChild(j, k) => on_child(menus, s, j as int, k as int),
        MenuEvent::Key(key) => on_key(menus, s, key),
    }
}

impl MenuState {
    /// Every index in the state points into the menus: the open and selected
    /// menus exist, the selected entry and the entry whose list is shown belong
    /// to the open menu, that entry has nested entries, and the selected nested
    /// entry is one of them.
    pub open spec fn wf<C>(self, menus: Seq<MenuItem<C>>) -> bool {
        &&& self.open_menu matches Some(i) ==> i < menus.len()
        &&& self.selected_menu matches Some(i) ==> i < menus.len()
        &&& self.selected_item matches Some(j) ==> (self.open_menu matches Some(i) && j < items_of(menus, i as int).len())
        &&& self.open_child matches Some(j) ==> (self.open_menu matches Some(i) && j < items_of(menus, i as int).len()
            && children_of(menus, i as int, j as int).len() > 0)
        &&& self.selected_child matches Some(k) ==> (self.open_child matches Some(j) && self.open_menu matches Some(i)
            && k < children_of(menus, i as int, j as int).len())
    }
}

proof fn lemma_first_enabled_bound<C>(items: Seq<SubMenuItem<C>>, j: usize)
    ensures
        match first_enabled_from(items, j) {
            Some(x) => j <= x && x < items.len(),
            None => true,
        },
    decreases items.len() - j,
{
    if j < items.len() && !items[j as int].enabled && j < usize::MAX {
        lemma_first_enabled_bound(items, (j + 1) as usize);
    }
}

fn first_enabled<C>(items: &Vec<SubMenuItem<C>>) -> (r: Option<usize>)
    ensures
        r == first_enabled_from(items@, 0),
{
    let mut j: usize = 0;
    while j < items.len()
        invariant
            j <= items@.len(),
            first_enabled_from(items@, 0) == first_enabled_from(items@, j),
        decreases items@.len() - j,
    {
        if items[j].enabled {
            return Some(j);
        }
        j += 1;
    }
    None
}

fn next_index_exec(c: Option<usize>, n: usize) -> (r: usize)
    requires
        n > 0,
    ensures
        r == next_index(c, n as int),
{
    match c {
        None => 0,
        Some(j) => if j < n - 1 {
            j + 1
        } else {
            0
        },
    }
}

fn prev_index_exec(c: Option<usize>, n: usize) -> (r: usize)
    requires
        n > 0,
    ensures
        r == prev_index(c, n as int),
{
    match c {
        None => n - 1,
        Some(j) => if j == 0 {
            n - 1
        } else {
            j - 1
        },
    }
}

fn close_all_exec(s: MenuState) -> (r: MenuState)
    ensures
        r == close_all(s),
{
    MenuState { open_menu: None, selected_item: None, open_child: None, selected_child: None, ..s }
}

fn finished_exec(s: MenuState) -> (r: MenuState)
    ensures
        r == finished(s),
{
    MenuState { keyboard_active: false, selected_menu: None, ..close_all_exec(s) }
}

fn open_by_key_exec<C>(menus: &Vec<MenuItem<C>>, s: MenuState, i: usize) -> (r: MenuState)
    requires
        i < menus@.len(),
    ensures
        r == open_by_key(menus@, s, i as int),
{
    MenuState {
        open_menu: Some(i),
        selected_menu: Some(i),
        selected_item: first_enabled(&menus[i].subitems),
        open_child: None,
        selected_child: None,
        ..s
    }
}

fn select_menu_exec<C>(menus: &Vec<MenuItem<C>>, s: MenuState, t: usize) -> (r: MenuState)
    requires
        t < menus@.len(),
    ensures
        r == select_menu(menus@, s, t as int),
{
    if s.open_menu.is_some() {
        if menus[t].enabled {
            open_by_key_exec(menus, s, t)
        } else {
            MenuState { selected_menu: Some(t), ..close_all_exec(s) }
        }
    } else {
        MenuState { selected_menu: Some(t), ..s }
    }
}

fn on_header_exec<C>(menus: &Vec<MenuItem<C>>, s: MenuState, i: usize) -> (r: MenuState)
    ensures
        r == on_header(menus@, s, i as int),
{
    if i >= menus.len() || !menus[i].enabled {
        s
    } else if s.open_menu == Some(i) {
        close_all_exec(s)
    } else {
        MenuState {
            open_menu: Some(i),
            just_opened: true,
            selected_menu: Some(i),
            selected_item: None,
            open_child: None,
            selected_child: None,
            ..s
        }
    }
}

fn on_item_exec<C>(menus: &Vec<MenuItem<C>>, s: MenuState, j: usize) -> (r: (MenuState, Option<Activation>))
    requires
        s.wf(menus@),
    ensures
        r == on_item(menus@, s, j as int),
{
    match s.open_menu {
        None => (s, None),
        Some(i) => {
            let items = &menus[i].subitems;
            if j >= items.len() || !items[j].enabled {
                (s, None)
            } else if items[j].children.len() > 0 {
                if s.open_child == Some(j) {
                    (MenuState { open_child: None, selected_child: None, ..s }, None)
                } else {
                    (MenuState { open_child: Some(j), selected_item: Some(j), selected_child: None, ..s }, None)
                }
            } else {
                (finished_exec(s), Some(Activation { menu: i, item: j, child: None }))
            }
        },
    }
}

fn on_child_exec<C>(menus: &Vec<MenuItem<C>>, s: MenuState, j: usize, k: usize) -> (r: (MenuState, Option<Activation>))
    requires
        s.wf(menus@),
    ensures
        r == on_child(menus@, s, j as int, k as int),
{
    match s.open_menu {
        None => (s, None),
        Some(i) => {
            if s.open_child != Some(j) {
                (s, None)
            } else {
                let cs = &menus[i].subitems[j].children;
                if k >= cs.len() || !cs[k].enabled || cs[k].children.len() > 0 {
                    (s, None)
                } else {
                    (finished_exec(s), Some(Activation { menu: i, item: j, child: Some(k) }))
                }
            }
        },
    }
}

fn close_child_exec(s: MenuState, j: usize) -> (r: MenuState)
    ensures
        r == (MenuState { open_child: None, selected_child: None, selected_item: Some(j), ..s }),
{
    MenuState { open_child: None, selected_child: None, selected_item: Some(j), ..s }
}

fn on_key_exec<C>(menus: &Vec<MenuItem<C>>, s: MenuState, key: NavKey) -> (r: (MenuState, Option<Activation>))
    requires
        s.wf(menus@),
    ensures
        r == on_key(menus@, s, key),
{
    let n = menus.len();
    if key == NavKey::Alt {
        if s.keyboard_active {
            return (MenuState { keyboard_active: false, selected_menu: None, ..close_all_exec(s) }, None);
        }
        let sel = match s.open_menu {
            Some(i) => Some(i),
            None => if n > 0 {
                Some(0usize)
            } else {
                None
            },
        };
        return (MenuState { keyboard_active: true, selected_menu: sel, ..s }, None);
    }
    if !s.keyboard_active {
        return (s, None);
    }
    match key {
        NavKey::Right => {
            if let (Some(i), None, Some(j)) = (s.open_menu, s.open_child, s.selected_item) {
                let it = &menus[i].subitems[j];
                if it.enabled && it.children.len() > 0 {
                    return (MenuState { open_child: Some(j), selected_child: Some(0usize), ..s }, None);
                }
            }
            if s.open_child.is_some() || n == 0 {
                (s, None)
            } else {
                (select_menu_exec(menus, s, next_index_exec(s.selected_menu, n)), None)
            }
        },
        NavKey::Left => match s.open_child {
            Some(j) => (close_child_exec(s, j), None),
            None => if n == 0 {
                (s, None)
            } else {
                (select_menu_exec(menus, s, prev_index_exec(s.selected_menu, n)), None)
            },
        },
        NavKey::Down => match s.open_menu {
            None => match s.selected_menu {
                Some(i) => if menus[i].enabled {
                    (open_by_key_exec(menus, s, i), None)
                } else {
                    (s, None)
                },
                None => (s, None),
            },
            Some(i) => match s.open_child {
                Some(j) => {
                    let m = menus[i].subitems[j].children.len();
                    (MenuState { selected_child: Some(next_index_exec(s.selected_child, m)), ..s }, None)
                },
                None => {
                    let m = menus[i].subitems.len();
                    if m == 0 {
                        (s, None)
                    } else {
                        (MenuState { selected_item: Some(next_index_exec(s.selected_item, m)), ..s }, None)
                    }
                },
            },
        },
        NavKey::Up => match s.open_menu {
            None => (s, None),
            Some(i) => match s.open_child {
                Some(j) => {
                    let m = menus[i].subitems[j].children.len();
                    (MenuState { selected_child: Some(prev_index_exec(s.selected_child, m)), ..s }, None)
                },
                None => {
                    let m = menus[i].subitems.len();
                    if m == 0 {
                        (s, None)
                    } else {
                        (MenuState { selected_item: Some(prev_index_exec(s.selected_item, m)), ..s }, None)
                    }
                },
            },
        },
        NavKey::Enter => match s.open_menu {
            None => match s.selected_menu {
                Some(i) => if menus[i].enabled {
                    (open_by_key_exec(menus, s, i), None)
                } else {
                    (s, None)
                },
                None => (s, None),
            },
            Some(i) => match (s.open_child, s.selected_child, s.selected_item) {
                (Some(j), Some(k), _) => {
                    let c = &menus[i].subitems[j].children[k];
                    if c.enabled && c.children.len() == 0 {
                        (finished_exec(s), Some(Activation { menu: i, item: j, child: Some(k) }))
                    } else {
                        (s, None)
                    }
                },
                (None, _, Some(j)) => {
                    let it = &menus[i].subitems[j];
                    if !it.enabled {
                        (s, None)
                    } else if it.children.len() > 0 {
                        (MenuState { open_child: Some(j), selected_child: Some(0usize), ..s }, None)
                    } else {
                        (finished_exec(s), Some(Activation { menu: i, item: j, child: None }))
                    }
                },
                _ => (s, None),
            },
        },
        _ => match (s.open_child, s.open_menu) {
            (Some(j), _) => (close_child_exec(s, j), None),
            (None, Some(_)) => (close_all_exec(s), None),
            (None, None) => (MenuState { keyboard_active: false, selected_menu: None, ..s }, None),
        },
    }
}

/// Every transition keeps the state's indices pointing into the menus.
pub proof fn step_keeps_wf<C>(menus: Seq<MenuItem<C>>, s: MenuState, ev: MenuEvent)
    requires
        s.wf(menus),
    ensures
        step(menus, s, ev).0.wf(menus),
{
    if let MenuEvent::Key(_) = ev {
        if let Some(i) = s.open_menu {
            lemma_first_enabled_bound(items_of(menus, i as int), 0);
        }
        if let Some(i) = s.selected_menu {
            lemma_first_enabled_bound(items_of(menus, i as int), 0);
        }
        let n = menus.len() as int;
        if n > 0 {
            let t1 = next_index(s.selected_menu, n) as int;
            let t2 = prev_index(s.selected_menu, n) as int;
            lemma_first_enabled_bound(items_of(menus, t1), 0);
            lemma_first_enabled_bound(items_of(menus, t2), 0);
        }
    }
}

impl MenuState {
    /// Nothing open, nothing selected, keyboard navigation off.
    pub open spec fn new_spec() -> MenuState {
        MenuState {
            open_menu: None,
            just_opened: false,
            keyboard_active: false,
            selected_menu: None,
            selected_item: None,
            open_child: None,
            selected_child: None,
        }
    }

    /// Nothing open, nothing selected, keyboard navigation off.
    pub fn new() -> (r: MenuState)
        ensures
            r == MenuState::new_spec(),
    {
        MenuState {
            open_menu: None,
            just_opened: false,
            keyboard_active: false,
            selected_menu: None,
            selected_item: None,
            open_child: None,
            selected_child: None,
        }
    }

    /// Apply one event; returns the entry to run, if any.
    pub fn step<C>(&mut self, menus: &Vec<MenuItem<C>>, ev: MenuEvent) -> (r: Option<Activation>)
        requires
            old(self).wf(menus@),
        ensures
            (*final(self), r) == step(menus@, *old(self), ev),
            final(self).wf(menus@),
    {
        proof {
            step_keeps_wf(menus@, *self, ev);
        }
        let s = *self;
        let (next, act) = match ev {
            MenuEvent::BeginFrame => (MenuState { just_opened: false, ..s }, None),
            MenuEvent::ClickHeader(i) => (on_header_exec(menus, s, i), None),
            MenuEvent::ClickOutside => {
                if s.open_menu.is_some() && !s.just_opened {
                    (close_all_exec(s), None)
                } else {
                    (s, None)
                }
            },
            MenuEvent::ClickItem(j) => on_item_exec(menus, s, j),
            MenuEvent::ClickChild(j, k) => on_child_exec(menus, s, j, k),
            MenuEvent::Key(key) => on_key_exec(menus, s, key),
        };
        *self = next;
        act
    }
}

/// Opening top-level menu `a` while menu `b` is open leaves `a` open, and
/// only `a`.
pub proof fn opening_replaces_open_menu<C>(menus: Seq<MenuItem<C>>, s: MenuState, a: usize, b: usize)
    requires
        s.open_menu == Some(b),
        a != b,
        a < menus.len(),
        menus[a as int].enabled,
    ensures
        step(menus, s, MenuEvent::ClickHeader(a)).0.open_menu == Some(a),
{
}

/// A click outside every menu closes the open menu, unless a click opened it
/// in this same frame.
pub proof fn outside_click_closes<C>(menus: Seq<MenuItem<C>>, s: MenuState)
    requires
        s.open_menu is Some,
        !s.just_opened,
    ensures
        step(menus, s, MenuEvent::ClickOutside).0.open_menu is None,
{
}

/// The click that opens a menu is not also read as a click outside: in the
/// frame where a header click opens menu `i`, an outside click leaves it open;
/// in the next frame an outside click closes it.
pub proof fn opening_click_is_not_outside<C>(menus: Seq<MenuItem<C>>, s: MenuState, i: usize)
    requires
        i < menus.len(),
        menus[i as int].enabled,
        s.open_menu != Some(i),
    ensures
        ({
            let s1 = step(menus, s, MenuEvent::BeginFrame).0;
            let s2 = step(menus, s1, MenuEvent::ClickHeader(i)).0;
            let s3 = step(menus, s2, MenuEvent::ClickOutside).0;
            let s4 = step(menus, s3, MenuEvent::BeginFrame).0;
            &&& s2.open_menu == Some(i)
            &&& s3.open_menu == Some(i)
            &&& step(menus, s4, MenuEvent::ClickOutside).0.open_menu is None
        }),
{
}

/// A disabled entry of the open menu, clicked or chosen with Enter, runs
/// nothing and leaves the state as it was.
pub proof fn disabled_entry_is_inert<C>(menus: Seq<MenuItem<C>>, s: MenuState, j: usize)
    requires
        s.open_menu matches Some(i) && j < items_of(menus, i as int).len() && !items_of(menus, i as int)[j as int].enabled,
    ensures
        step(menus, s, MenuEvent::ClickItem(j)) == (s, None::<Activation>),
        s.selected_item == Some(j) && s.open_child is None ==> step(menus, s, MenuEvent::Key(NavKey::Enter))
            == (s, None::<Activation>),
{
}

/// A disabled nested entry, clicked or chosen with Enter, runs nothing and
/// leaves the state as it was.
pub proof fn disabled_child_is_inert<C>(menus: Seq<MenuItem<C>>, s: MenuState, j: usize, k: usize)
    requires
        s.open_menu matches Some(i) && s.open_child == Some(j) && k < children_of(menus, i as int, j as int).len()
            && !children_of(menus, i as int, j as int)[k as int].enabled,
    ensures
        step(menus, s, MenuEvent::ClickChild(j, k)) == (s, None::<Activation>),
        s.selected_child == Some(k) ==> step(menus, s, MenuEvent::Key(NavKey::Enter)) == (s, None::<Activation>),
{
}

/// Menus together with their interaction state; the state's indices always
/// point into the menus.
pub struct Menus<C> {
    menus: Vec<MenuItem<C>>,
    state: MenuState,
}

proof fn lemma_wf_extend<C>(a: Seq<MenuItem<C>>, b: Seq<MenuItem<C>>, s: MenuState)
    requires
        s.wf(a),
        a.len() <= b.len(),
        forall|i: int| 0 <= i < a.len() ==> b[i] == a[i],
    ensures
        s.wf(b),
{
}

impl<C> Menus<C> {
    #[verifier::type_invariant]
    spec fn inv(self) -> bool {
        self.state.wf(self.menus@)
    }

    /// The menus, in order.
    pub closed spec fn spec_menus(&self) -> Seq<MenuItem<C>> {
        self.menus@
    }

    /// The interaction state.
    pub closed spec fn spec_state(&self) -> MenuState {
        self.state
    }

    /// No menus, nothing open.
    pub fn new() -> (r: Self)
        ensures
            r.spec_menus().len() == 0,
            r.spec_state() == MenuState::new_spec(),
    {
        Menus { menus: Vec::new(), state: MenuState::new() }
    }

    /// Append a top-level menu; the state is unchanged.
    pub fn push(&mut self, menu: MenuItem<C>)
        ensures
            final(self).spec_menus() == old(self).spec_menus().push(menu),
            final(self).spec_state() == old(self).spec_state(),
    {
        proof {
            use_type_invariant(&*self);
        }
        let saved = self.state;
        self.state = MenuState::new();
        let mut menus = Vec::new();
        std::mem::swap(&mut menus, &mut self.menus);
        menus.push(menu);
        proof {
            lemma_wf_extend(old(self).menus@, menus@, saved);
        }
        self.menus = menus;
        self.state = saved;
    }

    /// The menus, in order.
    pub fn items(&self) -> (r: &Vec<MenuItem<C>>)
        ensures
            r@ == self.spec_menus(),
    {
        &self.menus
    }

    /// The interaction state.
    pub fn state(&self) -> (r: MenuState)
        ensures
            r == self.spec_state(),
            r.wf(self.spec_menus()),
    {
        proof {
            use_type_invariant(&*self);
        }
        self.state
    }

    /// Apply one input event; returns the entry to run, if any.
    pub fn handle(&mut self, ev: MenuEvent) -> (r: Option<Activation>)
        ensures
            final(self).spec_menus() == old(self).spec_menus(),
            (final(self).spec_state(), r) == step(old(self).spec_menus(), old(self).spec_state(), ev),
    {
        proof {
            use_type_invariant(&*self);
        }
        let mut st = self.state;
        let r = st.step(&self.menus, ev);
        self.state = st;
        r
    }

    /// The callback of the entry that an activation names, if it has one.
    pub fn callback_for(&self, a: Activation) -> (r: Option<&C>)
        ensures
            match r {
                Some(c) => activation_callback(self.spec_menus(), a) == Some(*c),
                None => activation_callback(self.spec_menus(), a) is None,
            },
    {
        if a.menu >= self.menus.len() || a.item >= self.menus[a.menu].subitems.len() {
            return None;
        }
        let it = &self.menus[a.menu].subitems[a.item];
        match a.child {
            None => it.callback.as_ref(),
            Some(k) => if k < it.children.len() {
                it.children[k].callback.as_ref()
            } else {
                None
            },
        }
    }
}

/// The callback of the entry that an activation names, if the entry exists
/// and has one.
pub open spec fn activation_callback<C>(menus: Seq<MenuItem<C>>, a: Activation) -> Option<C> {
    if a.menu >= menus.len() || a.item >= items_of(menus, a.menu as int).len() {
        None
    } else {
        let it = items_of(menus, a.menu as int)[a.item as int];
        match a.child {
            None => it.callback,
            Some(k) => if k < it.children@.len() {
                it.children@[k as int].callback
            } else {
                None
            },
        }
    }
}

/// A place where a shortcut may sit: the entry it runs, its shortcut, and
/// whether it may run (its menu, the entry and the nested entry are enabled,
/// and it has no nested entries of its own).
pub type ShortcutSlot = (Activation, (Option<KeyboardShortcut>, bool));

/// The slots of entry `j` of menu `i` and of its nested entries, in order.
pub open spec fn item_slots<C>(i: usize, j: usize, menu_on: bool, it: SubMenuItem<C>) -> Seq<ShortcutSlot> {
    seq![(Activation { menu: i, item: j, child: None }, (it.shortcut, menu_on && it.enabled && it.children@.len() == 0))]
        + it.children@.map(|k: int, c: SubMenuItem<C>| (
            Activation { menu: i, item: j, child: Some(k as usize) },
            (c.shortcut, menu_on && it.enabled && c.enabled && c.children@.len() == 0),
        ))
}

/// The slots of the entries of menu `i`, in order.
pub open spec fn items_slots<C>(i: usize, menu_on: bool, items: Seq<SubMenuItem<C>>) -> Seq<ShortcutSlot>
    decreases items.len(),
{
    if items.len() == 0 {
        Seq::empty()
    } else {
        items_slots(i, menu_on, items.drop_last()) + item_slots(i, (items.len() - 1) as usize, menu_on, items.last())
    }
}

/// The slots of every entry of every menu, menu by menu, entry by entry,
/// each entry before its nested entries.
pub open spec fn menu_slots<C>(menus: Seq<MenuItem<C>>) -> Seq<ShortcutSlot>
    decreases menus.len(),
{
    if menus.len() == 0 {
        Seq::empty()
    } else {
        menu_slots(menus.drop_last()) + items_slots((menus.len() - 1) as usize, menus.last().enabled, menus.last().subitems@)
    }
}

/// The entries that one frame's shortcuts run, and the shortcut table after it.
pub open spec fn shortcut_activations_spec<C>(
    menus: Seq<MenuItem<C>>,
    m: Map<KeyboardShortcut, bool>,
    keys: Seq<Key>,
    held: Modifiers,
) -> (Seq<Activation>, Map<KeyboardShortcut, bool>) {
    let flat = menu_slots(menus);
    let (fired, m2) = shortcut_run(flat.map_values(|x: ShortcutSlot| x.1), m, keys, held);
    (fired.map_values(|p: usize| flat[p as int].0), m2)
}

proof fn lemma_run_bound(
    slots: Seq<(Option<KeyboardShortcut>, bool)>,
    m: Map<KeyboardShortcut, bool>,
    keys: Seq<Key>,
    held: Modifiers,
)
    requires
        slots.len() <= usize::MAX,
    ensures
        forall|q: int| 0 <= q < shortcut_run(slots, m, keys, held).0.len()
            ==> shortcut_run(slots, m, keys, held).0[q] < slots.len(),
    decreases slots.len(),
{
    if slots.len() > 0 {
        lemma_run_bound(slots.drop_last(), m, keys, held);
        let (fired, m1) = shortcut_run(slots.drop_last(), m, keys, held);
        let r = shortcut_run(slots, m, keys, held).0;
        assert forall|q: int| 0 <= q < r.len() implies r[q] < slots.len() by {
            if q < fired.len() {
                assert(fired[q] < slots.drop_last().len());
            }
        }
    }
}

/// Append the slot of one entry to the two parallel lists.
fn push_slot(
    acts: &mut Vec<Activation>,
    slots: &mut Vec<(Option<KeyboardShortcut>, bool)>,
    a: Activation,
    s: (Option<KeyboardShortcut>, bool),
)
    ensures
        final(acts)@ == old(acts)@.push(a),
        final(slots)@ == old(slots)@.push(s),
{
    acts.push(a);
    slots.push(s);
}

/// Whether the parallel lists hold exactly the slots `flat`.
pub open spec fn holds_slots(acts: Seq<Activation>, slots: Seq<(Option<KeyboardShortcut>, bool)>, flat: Seq<ShortcutSlot>) -> bool {
    &&& acts.len() == flat.len()
    &&& slots.len() == flat.len()
    &&& forall|p: int| 0 <= p < flat.len() ==> acts[p] == (#[trigger] flat[p]).0 && slots[p] == flat[p].1
}

impl<C> Menus<C> {
    fn collect_slots(&self) -> (r: (Vec<Activation>, Vec<(Option<KeyboardShortcut>, bool)>))
        ensures
            holds_slots(r.0@, r.1@, menu_slots(self.spec_menus())),
    {
        let menus = &self.menus;
        let mut acts: Vec<Activation> = Vec::new();
        let mut slots: Vec<(Option<KeyboardShortcut>, bool)> = Vec::new();
        let mut i: usize = 0;
        while i < menus.len()
            invariant
                i <= menus@.len(),
                holds_slots(acts@, slots@, menu_slots(menus@.take(i as int))),
            decreases menus@.len() - i,
        {
            let ghost base = menu_slots(menus@.take(i as int));
            let on = menus[i].enabled;
            let items = &menus[i].subitems;
            let mut j: usize = 0;
            while j < items.len()
                invariant
                    i < menus@.len(),
                    items == &menus@[i as int].subitems,
                    on == menus@[i as int].enabled,
                    j <= items@.len(),
                    holds_slots(acts@, slots@, base + items_slots(i, on, items@.take(j as int))),
                decreases items@.len() - j,
            {
                let ghost before = base + items_slots(i, on, items@.take(j as int));
                let it = &items[j];
                push_slot(
                    &mut acts,
                    &mut slots,
                    Activation { menu: i, item: j, child: None },
                    (it.shortcut, on && it.enabled && it.children.len() == 0),
                );
                let ghost head = seq![(Activation { menu: i, item: j, child: None }, (it.shortcut, on && it.enabled && it.children@.len() == 0))];
                let ghost kids = it.children@.map(|k: int, c: SubMenuItem<C>| (
                    Activation { menu: i, item: j, child: Some(k as usize) },
                    (c.shortcut, on && it.enabled && c.enabled && c.children@.len() == 0),
                ));
                assert(before + head =~= before + head + kids.take(0));
                let mut k: usize = 0;
                while k < it.children.len()
                    invariant
                        i < menus@.len(),
                        j < items@.len(),
                        it == &items@[j as int],
                        on == menus@[i as int].enabled,
                        k <= it.children@.len(),
                        kids == it.children@.map(|k: int, c: SubMenuItem<C>| (
                            Activation { menu: i, item: j, child: Some(k as usize) },
                            (c.shortcut, on && it.enabled && c.enabled && c.children@.len() == 0),
                        )),
                        holds_slots(acts@, slots@, before + head + kids.take(k as int)),
                    decreases it.children@.len() - k,
                {
                    let c = &it.children[k];
                    push_slot(
                        &mut acts,
                        &mut slots,
                        Activation { menu: i, item: j, child: Some(k) },
                        (c.shortcut, on && it.enabled && c.enabled && c.children.len() == 0),
                    );
                    assert(before + head + kids.take(k + 1) =~= (before + head + kids.take(k as int)).push(kids[k as int]));
                    k += 1;
                }
                assert(kids.take(k as int) =~= kids);
                assert(items@.take(j + 1).drop_last() =~= items@.take(j as int));
                assert(items_slots(i, on, items@.take(j + 1)) =~= items_slots(i, on, items@.take(j as int)) + head + kids);
                assert(base + items_slots(i, on, items@.take(j + 1)) =~= before + head + kids);
                j += 1;
            }
            assert(items@.take(j as int) =~= items@);
            assert(menus@.take(i + 1).drop_last() =~= menus@.take(i as int));
            assert(menu_slots(menus@.take(i + 1)) =~= base + items_slots(i, on, items@));
            i += 1;
        }
        assert(menus@.take(i as int) =~= menus@);
        (acts, slots)
    }

    /// Check every entry's shortcut against one frame, whether or not its menu
    /// is open; returns the entries to run.
    pub fn shortcut_activations(&self, states: &mut ShortcutStates, input: &InputSnapshot) -> (r: Vec<Activation>)
        requires
            old(states).wf(),
        ensures
            final(states).wf(),
            (r@, final(states)@) == shortcut_activations_spec(
                self.spec_menus(),
                old(states)@,
                input.keys_pressed@,
                input.modifiers,
            ),
    {
        let (acts, slots) = self.collect_slots();
        let ghost flat = menu_slots(self.spec_menus());
        assert(slots@ =~= flat.map_values(|x: ShortcutSlot| x.1));
        let fired = run_shortcuts(&slots, states, input);
        proof {
            assert(slots@.len() == slots.len());
            let ghost run = shortcut_run(slots@, old(states)@, input.keys_pressed@, input.modifiers);
            lemma_run_bound(slots@, old(states)@, input.keys_pressed@, input.modifiers);
            assert(fired@ == run.0);
            assert forall|x: int| 0 <= x < fired@.len() implies fired@[x] < slots@.len() by {
                assert(run.0[x] < slots@.len());
            }
        }
        let mut out: Vec<Activation> = Vec::new();
        let mut q: usize = 0;
        while q < fired.len()
            invariant
                q <= fired@.len(),
                holds_slots(acts@, slots@, flat),
                forall|x: int| 0 <= x < fired@.len() ==> fired@[x] < slots@.len(),
                out@ == fired@.take(q as int).map_values(|p: usize| flat[p as int].0),
            decreases fired@.len() - q,
        {
            let p = fired[q];
            out.push(acts[p]);
            assert(fired@.take(q + 1).map_values(|p: usize| flat[p as int].0)
                =~= fired@.take(q as int).map_values(|p: usize| flat[p as int].0).push(flat[p as int].0));
            q += 1;
        }
        assert(fired@.take(q as int) =~= fired@);
        out
    }
}

/// Whether Alt is held, and whether another key was pressed since it went
/// down: a tap of Alt alone toggles keyboard navigation, Alt used as a
/// modifier does not.
#[derive(Debug, Clone, Copy, PartialEq, Eq, Hash, Structural)]
pub struct AltTap {
    /// Alt was held in the previous frame.
    pub alt_down: bool,
    /// Another key was down while Alt was held.
    pub other_key_used: bool,
}

impl AltTap {
    /// Alt not held.
    pub fn new() -> (r: AltTap)
        ensures
            r == (AltTap { alt_down: false, other_key_used: false }),
    {
        AltTap { alt_down: false, other_key_used: false }
    }

    /// Take one frame's keyboard: whether Alt is held and whether any other
    /// key is down. Returns whether Alt was just released after being held
    /// with no other key, which the host reports as `NavKey::Alt`.
    pub fn step(&mut self, alt_held: bool, other_key_down: bool) -> (tapped: bool)
        ensures
            tapped == (old(self).alt_down && !alt_held && !old(self).other_key_used),
            *final(self) == (AltTap {
                alt_down: alt_held,
                other_key_used: alt_held && ((old(self).alt_down && old(self).other_key_used) || other_key_down),
            }),
    {
        let tapped = self.alt_down && !alt_held && !self.other_key_used;
        self.other_key_used = alt_held && ((self.alt_down && self.other_key_used) || other_key_down);
        self.alt_down = alt_held;
        tapped
    }
}

} // verus!
