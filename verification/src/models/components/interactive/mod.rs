//! Components that users interact with.

pub mod button;
pub mod select;
pub mod text_input;

use vstd::prelude::*;

verus! {

/// A handler function for an interactive component.
pub struct Handler<F>(pub F);

} // verus!
