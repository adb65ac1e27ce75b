use vstd::prelude::*;

verus! {

/// Information gathered from a web page: its title and its preview image.
#[derive(Debug, Clone, PartialEq, Eq)]
pub struct Info {
    pub title: String,
    pub thumbnail: String,
}

} // verus!
