//! A structure that, once pinned, links back to its own data.
//!
//! The link is modelled as a flag: established by `init` after the value has
//! been pinned in place, it stands for the interior pointer that must not
//! outlive or outrun the data it points into.  The data itself never changes
//! once the structure is built.

use vstd::prelude::*;

verus! {

/// Owns a string and, after initialisation, a link back into it.
pub struct SelfReferential {
    pub data: String,
    /// Whether the self-link has been established.
    pub linked: bool,
}

impl SelfReferential {
    /// Builds the structure with its data and no link yet.
    pub fn new(text: String) -> (s: SelfReferential)
        ensures
            s.data == text,
            !s.linked,
    {
        SelfReferential { data: text, linked: false }
    }

    /// Establishes the self-link.  The data is untouched: the link only
    /// refers back to it.
    pub fn init(&mut self)
        ensures
            final(self).data == old(self).data,
            final(self).linked,
    {
        self.linked = true;
    }

    /// Reads the data the structure owns.
    pub fn get_data(&self) -> (data: &str)
        ensures
            data@ == self.data@,
    {
        self.data.as_str()
    }
}

} // verus!
