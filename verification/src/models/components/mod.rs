//! Message components: their identifiers, the layouts that hold them and
//! the interactive ones.

pub mod content;

pub mod id;
pub mod interactive;

pub mod layout;

use vstd::prelude::*;

use crate::models::components::layout::{LayoutComponent, RootComponent};

verus! {

/// A layout component waiting to be placed in a root: it is placed once.
pub struct LayoutComponentHandler {
    pub(crate) layout: Option<LayoutComponent>,
}

impl LayoutComponentHandler {
    pub closed spec fn pending(self) -> Option<LayoutComponent> {
        self.layout
    }

    pub fn new(layout: LayoutComponent) -> (r: Self)
        ensures
            r.pending() == Some(layout),
    {
        LayoutComponentHandler { layout: Some(layout) }
    }

    /// Places the component in the root the first time; later calls add
    /// nothing.
    pub fn build(&mut self, root: &mut RootComponent)
        ensures
            final(self).pending() is None,
            old(self).pending() matches Some(l) ==> final(root).items() == old(root).items().push(l),
            old(self).pending() is None ==> final(root).items() == old(root).items(),
    {
        if let Some(layout) = self.layout.take() {
            root.push_layout(layout);
        }
    }
}

} // verus!
