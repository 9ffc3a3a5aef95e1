use std::marker::PhantomData;
use vstd::prelude::*;

use crate::models::components::id::ComponentIdGenerator;
use crate::models::components::interactive::button::Button;
use crate::models::components::interactive::select::Select;

verus! {

/// How many buttons a row in a given build state holds, or whether it holds
/// a select menu.
pub trait RowShape {
    spec fn buttons() -> nat;

    spec fn holds_select() -> bool;
}

pub struct Empty;

pub struct Has1;

pub struct Has2;

pub struct Has3;

pub struct Has4;

pub struct Has5;

pub struct HasSelect;

impl RowShape for Empty {
    open spec fn buttons() -> nat {
        0
    }

    open spec fn holds_select() -> bool {
        false
    }
}

impl RowShape for Has1 {
    open spec fn buttons() -> nat {
        1
    }

    open spec fn holds_select() -> bool {
        false
    }
}

impl RowShape for Has2 {
    open spec fn buttons() -> nat {
        2
    }

    open spec fn holds_select() -> bool {
        false
    }
}

impl RowShape for Has3 {
    open spec fn buttons() -> nat {
        3
    }

    open spec fn holds_select() -> bool {
        false
    }
}

impl RowShape for Has4 {
    open spec fn buttons() -> nat {
        4
    }

    open spec fn holds_select() -> bool {
        false
    }
}

impl RowShape for Has5 {
    open spec fn buttons() -> nat {
        5
    }

    open spec fn holds_select() -> bool {
        false
    }
}

impl RowShape for HasSelect {
    open spec fn buttons() -> nat {
        0
    }

    open spec fn holds_select() -> bool {
        true
    }
}

/// A row of interactive components.
pub enum ActionRow {
    Empty(ActionRowState<Empty>),
    HasSelect(ActionRowState<HasSelect>),
    Has1(ActionRowState<Has1>),
    Has2(ActionRowState<Has2>),
    Has3(ActionRowState<Has3>),
    Has4(ActionRowState<Has4>),
    Has5(ActionRowState<Has5>),
}

/// A component of a row.
pub enum ActionRowChild {
    Button(Button),
    Select(Select),
}

impl ActionRowChild {
    /// The custom id of the component.
    pub fn get_id(&self) -> (r: String)
        ensures
            r == match self {
                ActionRowChild::Button(b) => b.custom_id,
                ActionRowChild::Select(s) => s.custom_id,
            },
    {
        match self {
            ActionRowChild::Button(btn) => btn.get_id(),
            ActionRowChild::Select(select) => select.get_id(),
        }
    }
}

/// Whether the components fit a build state: a select menu alone, or as
/// many buttons as the state counts.
pub open spec fn fits<S: RowShape>(children: Seq<ActionRowChild>) -> bool {
    if S::holds_select() {
        children.len() == 1 && children[0] is Select
    } else {
        children.len() == S::buttons() && forall|i: int|
            0 <= i < children.len() ==> #[trigger] children[i] is Button
    }
}

/// A row while it is built: the state counts what it holds.
pub struct ActionRowState<S: RowShape> {
    pub(crate) components: Vec<ActionRowChild>,
    id: i32,
    _marker: PhantomData<S>,
}

impl<S: RowShape> ActionRowState<S> {
    #[verifier::type_invariant]
    spec fn shaped(self) -> bool {
        fits::<S>(self.components@)
    }

    /// The components of the row, in order.
    pub closed spec fn children(self) -> Seq<ActionRowChild> {
        self.components@
    }

    /// The numeric id of the row.
    pub closed spec fn id_value(self) -> i32 {
        self.id
    }

    /// The numeric id of the row.
    pub fn get_id(&self) -> (r: i32)
        ensures
            r == self.id_value(),
    {
        self.id
    }

    /// The components always fit the build state.
    pub fn shape(&self) -> (r: usize)
        ensures
            fits::<S>(self.children()),
            r == self.children().len(),
    {
        proof {
            use_type_invariant(self);
        }
        self.components.len()
    }
}

fn add_button<T: RowShape, N: RowShape>(ars: ActionRowState<T>, b: Button) -> (r: ActionRowState<N>)
    requires
        !T::holds_select(),
        !N::holds_select(),
        N::buttons() == T::buttons() + 1,
    ensures
        r.children() == ars.children().push(ActionRowChild::Button(b)),
        r.id_value() == ars.id_value(),
{
    proof {
        use_type_invariant(&ars);
    }
    let ActionRowState { components, id, _marker } = ars;
    let mut components = components;
    components.push(ActionRowChild::Button(b));
    ActionRowState { components, _marker: PhantomData, id }
}

impl ActionRow {
    /// An empty row with a random id.
    pub fn new() -> (r: ActionRowState<Empty>)
        ensures
            r.children() == Seq::<ActionRowChild>::empty(),
            0 <= r.id_value() < 256,
    {
        let id = ComponentIdGenerator::new().next_i32();
        let components: Vec<ActionRowChild> = Vec::new();
        assert(components@ =~= Seq::<ActionRowChild>::empty());
        ActionRowState { components, _marker: PhantomData, id }
    }

    /// The components of the row, in order.
    pub open spec fn children(self) -> Seq<ActionRowChild> {
        match self {
            ActionRow::Empty(a) => a.children(),
            ActionRow::Has1(a) => a.children(),
            ActionRow::Has2(a) => a.children(),
            ActionRow::Has3(a) => a.children(),
            ActionRow::Has4(a) => a.children(),
            ActionRow::Has5(a) => a.children(),
            ActionRow::HasSelect(a) => a.children(),
        }
    }

    /// The numeric id of the row.
    pub open spec fn id_value(self) -> i32 {
        match self {
            ActionRow::Empty(a) => a.id_value(),
            ActionRow::Has1(a) => a.id_value(),
            ActionRow::Has2(a) => a.id_value(),
            ActionRow::Has3(a) => a.id_value(),
            ActionRow::Has4(a) => a.id_value(),
            ActionRow::Has5(a) => a.id_value(),
            ActionRow::HasSelect(a) => a.id_value(),
        }
    }

    /// The components of the row. A row holds at most five buttons, or a
    /// select menu alone.
    pub fn get_children(&self) -> (r: &Vec<ActionRowChild>)
        ensures
            r@ == self.children(),
            r@.len() <= 5,
            (exists|i: int| 0 <= i < r@.len() && #[trigger] r@[i] is Select) ==> r@.len() == 1,
    {
        match self {
            ActionRow::Empty(a) => {
                a.shape();
                &a.components
            },
            ActionRow::Has1(a) => {
                a.shape();
                &a.components
            },
            ActionRow::Has2(a) => {
                a.shape();
                &a.components
            },
            ActionRow::Has3(a) => {
                a.shape();
                &a.components
            },
            ActionRow::Has4(a) => {
                a.shape();
                &a.components
            },
            ActionRow::Has5(a) => {
                a.shape();
                &a.components
            },
            ActionRow::HasSelect(a) => {
                a.shape();
                &a.components
            },
        }
    }

    /// The numeric id of the row.
    pub fn get_id(&self) -> (r: i32)
        ensures
            r == self.id_value(),
    {
        match self {
            ActionRow::Empty(a) => a.get_id(),
            ActionRow::Has1(a) => a.get_id(),
            ActionRow::Has2(a) => a.get_id(),
            ActionRow::Has3(a) => a.get_id(),
            ActionRow::Has4(a) => a.get_id(),
            ActionRow::Has5(a) => a.get_id(),
            ActionRow::HasSelect(a) => a.get_id(),
        }
    }
}

impl ActionRowState<Empty> {
    /// Puts a select menu in the row; it stays alone there.
    pub fn select(self, s: Select) -> (r: ActionRowState<HasSelect>)
        ensures
            r.children() == seq![ActionRowChild::Select(s)],
            r.id_value() == self.id_value(),
    {
        proof {
            use_type_invariant(&self);
        }
        let ActionRowState { components, id, _marker } = self;
        let mut components = components;
        components.push(ActionRowChild::Select(s));
        assert(components@ =~= seq![ActionRowChild::Select(s)]);
        ActionRowState { components, _marker: PhantomData, id }
    }

    /// Puts a first button in the row.
    pub fn button(self, b: Button) -> (r: ActionRowState<Has1>)
        ensures
            r.children() == self.children().push(ActionRowChild::Button(b)),
            r.id_value() == self.id_value(),
    {
        add_button(self, b)
    }
}

impl ActionRowState<Has1> {
    /// Puts a second button in the row.
    pub fn button(self, b: Button) -> (r: ActionRowState<Has2>)
        ensures
            r.children() == self.children().push(ActionRowChild::Button(b)),
            r.id_value() == self.id_value(),
    {
        add_button(self, b)
    }
}

impl ActionRowState<Has2> {
    /// Puts a third button in the row.
    pub fn button(self, b: Button) -> (r: ActionRowState<Has3>)
        ensures
            r.children() == self.children().push(ActionRowChild::Button(b)),
            r.id_value() == self.id_value(),
    {
        add_button(self, b)
    }
}

impl ActionRowState<Has3> {
    /// Puts a fourth button in the row.
    pub fn button(self, b: Button) -> (r: ActionRowState<Has4>)
        ensures
            r.children() == self.children().push(ActionRowChild::Button(b)),
            r.id_value() == self.id_value(),
    {
        add_button(self, b)
    }
}

impl ActionRowState<Has4> {
    /// Puts a fifth and last button in the row.
    pub fn button(self, b: Button) -> (r: ActionRowState<Has5>)
        ensures
            r.children() == self.children().push(ActionRowChild::Button(b)),
            r.id_value() == self.id_value(),
    {
        add_button(self, b)
    }
}

/// Finishing a row in any build state.
pub trait IntoActionRow {
    fn build(self) -> ActionRow;
}

impl IntoActionRow for ActionRowState<Empty> {
    fn build(self) -> (r: ActionRow)
        ensures
            r == ActionRow::Empty(self),
    {
        ActionRow::Empty(self)
    }
}

impl IntoActionRow for ActionRowState<Has1> {
    fn build(self) -> (r: ActionRow)
        ensures
            r == ActionRow::Has1(self),
    {
        ActionRow::Has1(self)
    }
}

impl IntoActionRow for ActionRowState<Has2> {
    fn build(self) -> (r: ActionRow)
        ensures
            r == ActionRow::Has2(self),
    {
        ActionRow::Has2(self)
    }
}

impl IntoActionRow for ActionRowState<Has3> {
    fn build(self) -> (r: ActionRow)
        ensures
            r == ActionRow::Has3(self),
    {
        ActionRow::Has3(self)
    }
}

impl IntoActionRow for ActionRowState<Has4> {
    fn build(self) -> (r: ActionRow)
        ensures
            r == ActionRow::Has4(self),
    {
        ActionRow::Has4(self)
    }
}

impl IntoActionRow for ActionRowState<Has5> {
    fn build(self) -> (r: ActionRow)
        ensures
            r == ActionRow::Has5(self),
    {
        ActionRow::Has5(self)
    }
}

impl IntoActionRow for ActionRowState<HasSelect> {
    fn build(self) -> (r: ActionRow)
        ensures
            r == ActionRow::HasSelect(self),
    {
        ActionRow::HasSelect(self)
    }
}

} // verus!
