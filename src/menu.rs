//! The menu tree: top-level menus, their entries, and nested entries.

use vstd::prelude::*;
use vstd::string::*;
use crate::shortcuts::KeyboardShortcut;

verus! {

/// An entry inside a dropdown menu, with an optional keyboard shortcut, an
/// enabled flag, a separator, a callback of type `C`, and nested entries.
pub struct SubMenuItem<C> {
    /// The visible label.
    pub label: String,
    /// Keyboard shortcut that triggers this entry, if any.
    pub shortcut: Option<KeyboardShortcut>,
    /// Whether the entry can be activated.
    pub enabled: bool,
    /// Whether a separator line is drawn after this entry.
    pub separator_after: bool,
    /// What runs when the entry is activated, if anything.
    pub callback: Option<C>,
    /// Nested entries.
    pub children: Vec<SubMenuItem<C>>,
}

impl<C> SubMenuItem<C> {
    /// A new enabled entry with a label and nothing else.
    pub fn new(label: &str) -> (r: Self)
        ensures
            r.label@ == label@,
            r.shortcut is None,
            r.enabled,
            !r.separator_after,
            r.callback is None,
            r.children@.len() == 0,
    {
        SubMenuItem {
            label: String::from_str(label),
            shortcut: None,
            enabled: true,
            separator_after: false,
            callback: None,
            children: Vec::new(),
        }
    }

    /// This entry with a keyboard shortcut.
    pub fn with_shortcut(self, shortcut: KeyboardShortcut) -> (r: Self)
        ensures
            r == (SubMenuItem { shortcut: Some(shortcut), ..self }),
    {
        SubMenuItem { shortcut: Some(shortcut), ..self }
    }

    /// This entry with a callback.
    pub fn with_callback(self, callback: C) -> (r: Self)
        ensures
            r == (SubMenuItem { callback: Some(callback), ..self }),
    {
        SubMenuItem { callback: Some(callback), ..self }
    }

    /// This entry, disabled.
    pub fn disabled(self) -> (r: Self)
        ensures
            r == (SubMenuItem { enabled: false, ..self }),
    {
        SubMenuItem { enabled: false, ..self }
    }

    /// This entry with a separator after it.
    pub fn with_separator(self) -> (r: Self)
        ensures
            r == (SubMenuItem { separator_after: true, ..self }),
    {
        SubMenuItem { separator_after: true, ..self }
    }

    /// This entry with one more nested entry at the end.
    pub fn add_child(self, child: SubMenuItem<C>) -> (r: Self)
        ensures
            r.children@ == self.children@.push(child),
            r.label == self.label,
            r.shortcut == self.shortcut,
            r.enabled == self.enabled,
            r.separator_after == self.separator_after,
            r.callback == self.callback,
    {
        let mut s = self;
        s.children.push(child);
        s
    }

    /// This entry with its nested entries replaced.
    pub fn with_children(self, children: Vec<SubMenuItem<C>>) -> (r: Self)
        ensures
            r == (SubMenuItem { children, ..self }),
    {
        SubMenuItem { children, ..self }
    }

    /// Whether the entry has nested entries.
    pub fn has_children(&self) -> (r: bool)
        ensures
            r == (self.children@.len() > 0),
    {
        self.children.len() > 0
    }
}

/// A top-level menu (such as "File") with its entries.
pub struct MenuItem<C> {
    /// Top-level menu label.
    pub label: String,
    /// Entries shown when the menu is open.
    pub subitems: Vec<SubMenuItem<C>>,
    /// Whether the menu can be opened.
    pub enabled: bool,
}

impl<C> MenuItem<C> {
    /// A new enabled menu with no entries.
    pub fn new(label: &str) -> (r: Self)
        ensures
            r.label@ == label@,
            r.subitems@.len() == 0,
            r.enabled,
    {
        MenuItem { label: String::from_str(label), subitems: Vec::new(), enabled: true }
    }

    /// This menu with one more entry at the end.
    pub fn add_subitem(self, subitem: SubMenuItem<C>) -> (r: Self)
        ensures
            r.subitems@ == self.subitems@.push(subitem),
            r.label == self.label,
            r.enabled == self.enabled,
    {
        let mut s = self;
        s.subitems.push(subitem);
        s
    }

    /// This menu, disabled.
    pub fn disabled(self) -> (r: Self)
        ensures
            r == (MenuItem { enabled: false, ..self }),
    {
        MenuItem { enabled: false, ..self }
    }
}

/// `b` has the label, shortcut, flags and number of nested entries of `a`, and
/// no callback; and so down to `depth` levels of nested entries.
pub open spec fn copied_without_callbacks<C>(a: SubMenuItem<C>, b: SubMenuItem<C>, depth: nat) -> bool
    decreases depth, 0nat,
{
    &&& b.label@ == a.label@
    &&& b.shortcut == a.shortcut
    &&& b.enabled == a.enabled
    &&& b.separator_after == a.separator_after
    &&& b.callback is None
    &&& b.children@.len() == a.children@.len()
    &&& depth > 0 ==> all_copied_without_callbacks(a.children@, b.children@, (depth - 1) as nat)
}

/// Entry by entry, `bs` is `as_` copied down to `depth` levels with every
/// callback dropped.
pub open spec fn all_copied_without_callbacks<C>(as_: Seq<SubMenuItem<C>>, bs: Seq<SubMenuItem<C>>, depth: nat) -> bool
    decreases depth, as_.len() + 1,
{
    &&& as_.len() == bs.len()
    &&& as_.len() > 0 ==> {
        &&& all_copied_without_callbacks(as_.drop_last(), bs.drop_last(), depth)
        &&& copied_without_callbacks(as_.last(), bs.last(), depth)
    }
}

/// `b` is a copy of `a`, at every depth of nesting, with every callback dropped.
pub open spec fn copy_without_callbacks<C>(a: SubMenuItem<C>, b: SubMenuItem<C>) -> bool {
    forall|depth: nat| #[trigger] copied_without_callbacks(a, b, depth)
}

impl<C> Clone for SubMenuItem<C> {
    /// A copy of the entry and of all its nested entries; callbacks cannot be
    /// copied and are dropped.
    fn clone(&self) -> (r: Self)
        ensures
            copy_without_callbacks(*self, r),
        decreases self,
    {
        let mut children: Vec<SubMenuItem<C>> = Vec::new();
        let mut i: usize = 0;
        while i < self.children.len()
            invariant
                i <= self.children@.len(),
                children@.len() == i,
                forall|d: nat| #[trigger] all_copied_without_callbacks(self.children@.take(i as int), children@, d),
            decreases self.children@.len() - i,
        {
            proof {
                assert(decreases_to!(self.children => self.children@[i as int]));
            }
            let c = self.children[i].clone();
            let ghost before = children@;
            children.push(c);
            proof {
                assert forall|d: nat| #[trigger] all_copied_without_callbacks(self.children@.take(i + 1), children@, d) by {
                    assert(self.children@.take(i + 1).drop_last() =~= self.children@.take(i as int));
                    assert(children@.drop_last() =~= before);
                    assert(copied_without_callbacks(self.children@[i as int], c, d));
                    assert(all_copied_without_callbacks(self.children@.take(i as int), before, d));
                }
            }
            i += 1;
        }
        assert(self.children@.take(i as int) =~= self.children@);
        let r = SubMenuItem {
            label: self.label.clone(),
            shortcut: self.shortcut,
            enabled: self.enabled,
            separator_after: self.separator_after,
            callback: None,
            children,
        };
        assert forall|depth: nat| #[trigger] copied_without_callbacks(*self, r, depth) by {
            if depth > 0 {
                assert(all_copied_without_callbacks(self.children@, r.children@, (depth - 1) as nat));
            }
        }
        r
    }
}

impl<C> Clone for MenuItem<C> {
    /// A copy of the menu; the callbacks of its entries are dropped.
    fn clone(&self) -> (r: Self)
        ensures
            r.label@ == self.label@,
            r.enabled == self.enabled,
            r.subitems@.len() == self.subitems@.len(),
            forall|j: int|
                0 <= j < self.subitems@.len() ==> #[trigger] copy_without_callbacks(self.subitems@[j], r.subitems@[j]),
    {
        let mut subitems: Vec<SubMenuItem<C>> = Vec::new();
        let mut i: usize = 0;
        while i < self.subitems.len()
            invariant
                i <= self.subitems@.len(),
                subitems@.len() == i,
                forall|j: int| 0 <= j < i ==> #[trigger] copy_without_callbacks(self.subitems@[j], subitems@[j]),
            decreases self.subitems@.len() - i,
        {
            let c = self.subitems[i].clone();
            subitems.push(c);
            i += 1;
        }
        MenuItem { label: self.label.clone(), subitems, enabled: self.enabled }
    }
}

} // verus!
