use std::marker::PhantomData;
use vstd::prelude::*;
use vstd::std_specs::convert::IntoSpec;

use crate::models::components::content::text_display::TextDisplay;
use crate::models::components::content::thumbnail::Thumbnail;
use crate::models::components::interactive::button::Button;

verus! {

/// What a section shows.
pub enum SectionComponent {
    TextDisplay(TextDisplay),
}

impl From<TextDisplay> for SectionComponent {
    fn from(value: TextDisplay) -> (r: Self) {
        SectionComponent::TextDisplay(value)
    }
}

impl vstd::std_specs::convert::FromSpecImpl<TextDisplay> for SectionComponent {
    open spec fn obeys_from_spec() -> bool {
        true
    }

    open spec fn from_spec(v: TextDisplay) -> Self {
        SectionComponent::TextDisplay(v)
    }
}

/// What stands beside a section.
pub enum SectionAccessory {
    Button(Button),
    Thumbnail(Thumbnail),
}

impl From<Button> for SectionAccessory {
    fn from(value: Button) -> (r: Self) {
        SectionAccessory::Button(value)
    }
}

impl vstd::std_specs::convert::FromSpecImpl<Button> for SectionAccessory {
    open spec fn obeys_from_spec() -> bool {
        true
    }

    open spec fn from_spec(v: Button) -> Self {
        SectionAccessory::Button(v)
    }
}

impl From<Thumbnail> for SectionAccessory {
    fn from(value: Thumbnail) -> (r: Self) {
        SectionAccessory::Thumbnail(value)
    }
}

impl vstd::std_specs::convert::FromSpecImpl<Thumbnail> for SectionAccessory {
    open spec fn obeys_from_spec() -> bool {
        true
    }

    open spec fn from_spec(v: Thumbnail) -> Self {
        SectionAccessory::Thumbnail(v)
    }
}

/// Whether a part of a section is there in a given build state.
pub trait SectionMark {
    spec fn present() -> bool;
}

pub struct Empty;

pub struct HasComponent;

pub struct HasAccessory;

pub struct Ready;

impl SectionMark for Empty {
    open spec fn present() -> bool {
        false
    }
}

impl SectionMark for HasComponent {
    open spec fn present() -> bool {
        true
    }
}

impl SectionMark for HasAccessory {
    open spec fn present() -> bool {
        true
    }
}

impl SectionMark for Ready {
    open spec fn present() -> bool {
        true
    }
}

/// A finished section: at least one component and an accessory.
pub enum Section {
    Ready(SectionState<HasComponent, HasAccessory>),
}

/// A section while it is built: the states say whether a component and an
/// accessory are there.
pub struct SectionState<C: SectionMark, A: SectionMark> {
    id: i32,
    components: Vec<SectionComponent>,
    accessory: Option<SectionAccessory>,
    _marker: PhantomData<(C, A)>,
}

impl<C: SectionMark, A: SectionMark> SectionState<C, A> {
    #[verifier::type_invariant]
    spec fn marked(self) -> bool {
        &&& C::present() ==> self.components@.len() >= 1
        &&& A::present() ==> self.accessory is Some
    }

    /// The components, in order.
    pub closed spec fn components_view(self) -> Seq<SectionComponent> {
        self.components@
    }

    /// The accessory, if one was set.
    pub closed spec fn accessory_view(self) -> Option<SectionAccessory> {
        self.accessory
    }

    /// The numeric id of the section.
    pub closed spec fn id_value(self) -> i32 {
        self.id
    }

    /// What is marked as there is there.
    pub fn check_marks(&self)
        ensures
            C::present() ==> self.components_view().len() >= 1,
            A::present() ==> self.accessory_view() is Some,
    {
        proof {
            use_type_invariant(self);
        }
    }
}

fn add_component<A: SectionMark, B: SectionMark, C: SectionMark, D: SectionMark>(
    state: SectionState<A, B>,
    component: SectionComponent,
) -> (r: SectionState<C, D>)
    requires
        D::present() ==> B::present(),
    ensures
        r.components_view() == state.components_view().push(component),
        r.accessory_view() == state.accessory_view(),
        r.id_value() == state.id_value(),
{
    proof {
        use_type_invariant(&state);
    }
    let SectionState { id, components, accessory, _marker } = state;
    let mut components = components;
    components.push(component);
    SectionState { id, components, accessory, _marker: PhantomData }
}

fn set_accessory<A: SectionMark, B: SectionMark, C: SectionMark, D: SectionMark>(
    state: SectionState<A, B>,
    accessory: SectionAccessory,
) -> (r: SectionState<C, D>)
    requires
        C::present() ==> A::present(),
    ensures
        r.components_view() == state.components_view(),
        r.accessory_view() == Some(accessory),
        r.id_value() == state.id_value(),
{
    proof {
        use_type_invariant(&state);
    }
    let SectionState { id, components, accessory: _, _marker } = state;
    SectionState { id, components, accessory: Some(accessory), _marker: PhantomData }
}

impl Section {
    /// An empty section.
    pub fn new() -> (r: SectionState<Empty, Empty>)
        ensures
            r.components_view() == Seq::<SectionComponent>::empty(),
            r.accessory_view() is None,
            r.id_value() == 0,
    {
        SectionState::new()
    }

    pub open spec fn state(self) -> SectionState<HasComponent, HasAccessory> {
        match self {
            Section::Ready(s) => s,
        }
    }

    /// The accessory: a finished section always has one.
    pub fn get_accessory(&self) -> (r: Option<&SectionAccessory>)
        ensures
            r is Some,
            self.state().accessory_view() is Some,
            *r->0 == self.state().accessory_view()->0,
    {
        match self {
            Section::Ready(state) => {
                state.check_marks();
                state.accessory.as_ref()
            },
        }
    }

    /// The numeric id of the section.
    pub fn get_id(&self) -> (r: i32)
        ensures
            r == self.state().id_value(),
    {
        match self {
            Section::Ready(state) => state.id,
        }
    }

    /// How many components the section shows: at least one.
    pub fn count(&self) -> (r: usize)
        ensures
            r == self.state().components_view().len(),
            r >= 1,
    {
        match self {
            Section::Ready(ready) => {
                ready.check_marks();
                ready.components.len()
            },
        }
    }
}

impl SectionState<Empty, Empty> {
    fn new() -> (r: Self)
        ensures
            r.components_view() == Seq::<SectionComponent>::empty(),
            r.accessory_view() is None,
            r.id_value() == 0,
    {
        let components: Vec<SectionComponent> = Vec::new();
        assert(components@ =~= Seq::<SectionComponent>::empty());
        SectionState { id: 0, components, accessory: None, _marker: PhantomData }
    }

    /// Sets the accessory first.
    pub fn accessory<T: Into<SectionAccessory>>(self, accessory: T) -> (r: SectionState<
        Empty,
        HasAccessory,
    >)
        ensures
            r.components_view() == self.components_view(),
            r.accessory_view() matches Some(a) && call_ensures(T::into, (accessory,), a),
            r.id_value() == self.id_value(),
    {
        set_accessory(self, accessory.into())
    }

    /// Adds a first component.
    pub fn component<T: Into<SectionComponent>>(self, component: T) -> (r: SectionState<
        HasComponent,
        Empty,
    >)
        ensures
            r.components_view().len() == self.components_view().len() + 1,
            r.components_view().drop_last() == self.components_view(),
            call_ensures(T::into, (component,), r.components_view().last()),
            r.accessory_view() == self.accessory_view(),
            r.id_value() == self.id_value(),
    {
        let c = component.into();
        let r = add_component(self, c);
        assert(r.components_view().drop_last() =~= self.components_view());
        r
    }
}

impl SectionState<HasComponent, Empty> {
    /// Adds another component.
    pub fn component<T: Into<SectionComponent>>(self, component: T) -> (r: SectionState<
        HasComponent,
        Empty,
    >)
        ensures
            r.components_view().len() == self.components_view().len() + 1,
            r.components_view().drop_last() == self.components_view(),
            call_ensures(T::into, (component,), r.components_view().last()),
            r.accessory_view() == self.accessory_view(),
            r.id_value() == self.id_value(),
    {
        let c = component.into();
        let r = add_component(self, c);
        assert(r.components_view().drop_last() =~= self.components_view());
        r
    }

    /// Sets the accessory; the section can then be built.
    pub fn accessory<T: Into<SectionAccessory>>(self, accessory: T) -> (r: SectionState<
        HasComponent,
        HasAccessory,
    >)
        ensures
            r.components_view() == self.components_view(),
            r.accessory_view() matches Some(a) && call_ensures(T::into, (accessory,), a),
            r.id_value() == self.id_value(),
    {
        set_accessory(self, accessory.into())
    }
}

impl SectionState<Empty, HasAccessory> {
    /// Adds a first component; the section can then be built.
    pub fn component<T: Into<SectionComponent>>(self, component: T) -> (r: SectionState<
        HasComponent,
        HasAccessory,
    >)
        ensures
            r.components_view().len() == self.components_view().len() + 1,
            r.components_view().drop_last() == self.components_view(),
            call_ensures(T::into, (component,), r.components_view().last()),
            r.accessory_view() == self.accessory_view(),
            r.id_value() == self.id_value(),
    {
        let c = component.into();
        let r = add_component(self, c);
        assert(r.components_view().drop_last() =~= self.components_view());
        r
    }
}

impl SectionState<HasComponent, HasAccessory> {
    /// Adds another component; the accessory stays, though the state no
    /// longer records it.
    pub fn component(self, component: SectionComponent) -> (r: SectionState<HasComponent, Empty>)
        ensures
            r.components_view() == self.components_view().push(component),
            r.accessory_view() == self.accessory_view(),
            r.id_value() == self.id_value(),
    {
        add_component(self, component)
    }

    /// Finishes the section.
    pub fn build(self) -> (r: Section)
        ensures
            r == Section::Ready(self),
    {
        Section::Ready(self)
    }
}

} // verus!
