//! Layout components and the root that holds them.

pub mod action_row;
pub mod container;
pub mod section;
pub mod separator;

use vstd::prelude::*;
use vstd::std_specs::convert::IntoSpec;

use crate::models::components::layout::action_row::ActionRow;
use crate::models::components::layout::container::Container;
use crate::models::components::layout::section::Section;
use crate::models::components::layout::separator::Separator;

verus! {

/// A top-level component of a message.
pub enum LayoutComponent {
    ActionRow(ActionRow),
    Container(Container),
    Section(Section),
    Separator(Separator),
}

/// Whether a component needs Discord's second components layout: all but
/// action rows do.
pub open spec fn needs_components_v2(c: LayoutComponent) -> bool {
    !(c is ActionRow)
}

/// The numeric id of a component; separators have none and count as 0.
pub open spec fn layout_id(c: LayoutComponent) -> i32 {
    match c {
        LayoutComponent::ActionRow(a) => a.id_value(),
        LayoutComponent::Container(k) => k.id,
        LayoutComponent::Section(s) => s.state().id_value(),
        LayoutComponent::Separator(_) => 0,
    }
}

impl LayoutComponent {
    pub fn require_components_v2(&self) -> (r: bool)
        ensures
            r == needs_components_v2(*self),
    {
        match self {
            LayoutComponent::ActionRow(_) => false,
            LayoutComponent::Container(_) => true,
            LayoutComponent::Section(_) => true,
            LayoutComponent::Separator(_) => true,
        }
    }

    pub fn get_id(&self) -> (r: i32)
        ensures
            r == layout_id(*self),
    {
        match self {
            LayoutComponent::ActionRow(action_row) => action_row.get_id(),
            LayoutComponent::Container(container) => container.get_id(),
            LayoutComponent::Section(section) => section.get_id(),
            LayoutComponent::Separator(_) => 0,
        }
    }
}

impl From<Container> for LayoutComponent {
    fn from(value: Container) -> (r: Self) {
        LayoutComponent::Container(value)
    }
}

impl vstd::std_specs::convert::FromSpecImpl<Container> for LayoutComponent {
    open spec fn obeys_from_spec() -> bool {
        true
    }

    open spec fn from_spec(v: Container) -> Self {
        LayoutComponent::Container(v)
    }
}

impl From<ActionRow> for LayoutComponent {
    fn from(value: ActionRow) -> (r: Self) {
        LayoutComponent::ActionRow(value)
    }
}

impl vstd::std_specs::convert::FromSpecImpl<ActionRow> for LayoutComponent {
    open spec fn obeys_from_spec() -> bool {
        true
    }

    open spec fn from_spec(v: ActionRow) -> Self {
        LayoutComponent::ActionRow(v)
    }
}

impl From<Separator> for LayoutComponent {
    fn from(value: Separator) -> (r: Self) {
        LayoutComponent::Separator(value)
    }
}

impl vstd::std_specs::convert::FromSpecImpl<Separator> for LayoutComponent {
    open spec fn obeys_from_spec() -> bool {
        true
    }

    open spec fn from_spec(v: Separator) -> Self {
        LayoutComponent::Separator(v)
    }
}

impl From<Section> for LayoutComponent {
    fn from(value: Section) -> (r: Self) {
        LayoutComponent::Section(value)
    }
}

impl vstd::std_specs::convert::FromSpecImpl<Section> for LayoutComponent {
    open spec fn obeys_from_spec() -> bool {
        true
    }

    open spec fn from_spec(v: Section) -> Self {
        LayoutComponent::Section(v)
    }
}

/// The components of a message, in the order they were added.
pub struct RootComponent(pub(crate) Vec<LayoutComponent>);

impl RootComponent {
    pub closed spec fn items(self) -> Seq<LayoutComponent> {
        self.0@
    }

    /// A root without components.
    pub fn new() -> (r: Self)
        ensures
            r.items() == Seq::<LayoutComponent>::empty(),
    {
        RootComponent(Vec::new())
    }

    /// Whether the message needs Discord's second components layout: some
    /// component other than an action row is in it.
    pub fn require_components_v2(&self) -> (r: bool)
        ensures
            r == exists|i: int| 0 <= i < self.items().len() && needs_components_v2(
                #[trigger] self.items()[i],
            ),
    {
        let mut i: usize = 0;
        while i < self.0.len()
            invariant
                i <= self.items().len(),
                forall|j: int| 0 <= j < i ==> !needs_components_v2(#[trigger] self.items()[j]),
            decreases self.0.len() - i,
        {
            if self.0[i].require_components_v2() {
                return true;
            }
            i = i + 1;
        }
        false
    }

    /// Adds a layout component at the end.
    pub fn push_layout(&mut self, component: LayoutComponent)
        ensures
            final(self).items() == old(self).items().push(component),
    {
        self.0.push(component);
    }

    /// Adds a component at the end.
    pub fn add<C: Into<LayoutComponent>>(&mut self, component: C)
        ensures
            final(self).items().len() == old(self).items().len() + 1,
            final(self).items().drop_last() == old(self).items(),
            call_ensures(C::into, (component,), final(self).items().last()),
    {
        let component = component.into();
        self.0.push(component);
        assert(self.items().drop_last() =~= old(self).items());
    }
}

} // verus!
