use vstd::prelude::*;

verus! {

/// A box around other components, known by its numeric id.
pub struct Container {
    pub id: i32,
}

impl Container {
    pub fn new(id: i32) -> (r: Self)
        ensures
            r.id == id,
    {
        Container { id }
    }

    pub fn get_id(&self) -> (r: i32)
        ensures
            r == self.id,
    {
        self.id
    }
}

} // verus!
