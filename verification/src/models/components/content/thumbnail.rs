use vstd::prelude::*;

verus! {

/// A small image beside a section.
pub struct Thumbnail {
    pub url: String,
}

impl Thumbnail {
    pub fn new(url: String) -> (r: Self)
        ensures
            r.url == url,
    {
        Thumbnail { url }
    }
}

} // verus!
