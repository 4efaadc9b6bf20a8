//! The platform a command is built for.

use vstd::prelude::*;

verus! {

/// The operating system on which a command will be spawned.
///
/// Only Windows gives its spawn primitive a creation-flags mask; every other
/// system is the same to this crate.
#[derive(Clone, Copy, Debug, PartialEq, Eq, Structural)]
pub enum Platform {
    /// The process is created through `CreateProcess`, which reads the mask.
    Windows,
    /// Any system whose spawn primitive takes no creation flags.
    Other,
}

impl Platform {
    /// Whether the spawn primitive of this platform reads the creation-flags mask.
    pub open spec fn reads_creation_flags(self) -> bool {
        self is Windows
    }

    /// Whether this is Windows.
    pub fn is_windows(self) -> (r: bool)
        ensures
            r == self.reads_creation_flags(),
    {
        match self {
            Platform::Windows => true,
            Platform::Other => false,
        }
    }
}

} // verus!
