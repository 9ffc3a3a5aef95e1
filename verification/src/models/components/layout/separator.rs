use vstd::prelude::*;

verus! {

/// A divider between components.
pub struct Separator;

} // verus!
