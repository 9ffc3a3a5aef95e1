use vstd::prelude::*;

verus! {

/// A block of markdown text.
pub struct TextDisplay {
    pub content: String,
}

impl TextDisplay {
    pub fn new(content: String) -> (r: Self)
        ensures
            r.content == content,
    {
        TextDisplay { content }
    }
}

} // verus!
