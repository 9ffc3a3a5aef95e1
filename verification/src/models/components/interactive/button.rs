use vstd::prelude::*;

verus! {

/// A button, known by its custom id.
pub struct Button {
    pub custom_id: String,
}

impl Button {
    pub fn new(custom_id: String) -> (r: Self)
        ensures
            r.custom_id == custom_id,
    {
        Button { custom_id }
    }

    pub fn get_id(&self) -> (r: String)
        ensures
            r == self.custom_id,
    {
        self.custom_id.clone()
    }
}

} // verus!
