//! Modals: forms of text inputs that users submit.

use std::marker::PhantomData;
use vstd::prelude::*;

verus! {

/// A modal made of a name, a description and a handler function.
pub struct ModalHandler<F, Fut> {
    pub name: String,
    pub description: String,
    pub handler: F,
    _marker: PhantomData<Fut>,
}

impl<F, Fut> ModalHandler<F, Fut> {
    pub closed spec fn name_value(self) -> String {
        self.name
    }

    pub closed spec fn description_value(self) -> String {
        self.description
    }

    pub closed spec fn handler_value(self) -> F {
        self.handler
    }

    pub fn new(name: String, description: String, handler: F) -> (r: Self)
        ensures
            r.name_value() == name,
            r.description_value() == description,
            r.handler_value() == handler,
    {
        ModalHandler { name, description, handler, _marker: PhantomData }
    }

    /// The name of the modal.
    pub fn name(&self) -> (r: String)
        ensures
            r == self.name_value(),
    {
        self.name.clone()
    }

    /// The description of the modal.
    pub fn description(&self) -> (r: String)
        ensures
            r == self.description_value(),
    {
        self.description.clone()
    }
}

} // verus!
