//! Build profiles and their position among the script's archive lines.

use vstd::prelude::*;

verus! {

/// A build variant of the stage4 archive.
#[derive(Clone, Copy, Debug, PartialEq, Eq, Structural)]
pub enum Profile {
    Standard,
    Hardened,
}

impl Profile {
    /// The position of this profile's line among the archive lines of the
    /// installer script, counted from zero in the order of the text.
    ///
    /// The script lists the hardened archive first and the standard one
    /// second. The mapping is by position alone: the text of a line is never
    /// searched for a profile's name.
    pub open spec fn spec_match_index(self) -> nat {
        match self {
            Profile::Hardened => 0,
            Profile::Standard => 1,
        }
    }

    /// Returns the position of this profile's line among the archive lines.
    pub fn match_index(self) -> (index: usize)
        ensures
            index == self.spec_match_index(),
    {
        match self {
            Profile::Hardened => 0,
            Profile::Standard => 1,
        }
    }
}

} // verus!
