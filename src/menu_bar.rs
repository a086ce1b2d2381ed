//! A minimal horizontal menu bar: labels, each with an optional action.

use vstd::prelude::*;
use vstd::string::*;

verus! {

/// One label of the bar and what runs when it is clicked.
pub struct MenuItem<C> {
    /// The visible label.
    pub label: String,
    /// What runs on a click, if anything.
    pub action: Option<C>,
}

/// A row of clickable labels.
pub struct MenuBar<C> {
    items: Vec<MenuItem<C>>,
}

impl<C> MenuBar<C> {
    /// The labels, in order.
    pub closed spec fn spec_items(&self) -> Seq<MenuItem<C>> {
        self.items@
    }

    /// An empty bar.
    pub fn new() -> (r: Self)
        ensures
            r.spec_items().len() == 0,
    {
        MenuBar { items: Vec::new() }
    }

    /// The bar with one more label at the end.
    pub fn add_item(self, label: &str, action: Option<C>) -> (r: Self)
        ensures
            r.spec_items().len() == self.spec_items().len() + 1,
            r.spec_items().drop_last() == self.spec_items(),
            r.spec_items().last().label@ == label@,
            r.spec_items().last().action == action,
    {
        let mut items = self.items;
        items.push(MenuItem { label: String::from_str(label), action });
        proof {
            assert(items@.drop_last() =~= self.items@);
        }
        MenuBar { items }
    }

    /// The labels, in order.
    pub fn items(&self) -> (r: &Vec<MenuItem<C>>)
        ensures
            r@ == self.spec_items(),
    {
        &self.items
    }

    /// The action of the label at `index`, if there is one.
    pub fn action_for(&self, index: usize) -> (r: Option<&C>)
        ensures
            match r {
                Some(c) => index < self.spec_items().len() && self.spec_items()[index as int].action == Some(*c),
                None => index >= self.spec_items().len() || self.spec_items()[index as int].action is None,
            },
    {
        if index < self.items.len() {
            self.items[index].action.as_ref()
        } else {
            None
        }
    }
}

impl<C> Default for MenuBar<C> {
    fn default() -> (r: Self)
        ensures
            r.spec_items().len() == 0,
    {
        Self::new()
    }
}

} // verus!
