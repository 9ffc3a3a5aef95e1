use vstd::prelude::*;

verus! {

/// A select menu, known by its custom id.
pub struct Select {
    pub custom_id: String,
}

impl Select {
    pub fn new(custom_id: String) -> (r: Self)
        ensures
            r.custom_id == custom_id,
    {
        Select { custom_id }
    }

    pub fn get_id(&self) -> (r: String)
        ensures
            r == self.custom_id,
    {
        self.custom_id.clone()
    }
}

} // verus!
