//! Miscellaneous platform-specific code.

use std::path::PathBuf;
use vstd::prelude::*;

verus! {

/// Tries to find an installation of SWBF2 somewhere on this computer, using
/// platform specific methods.
///
/// Returns `None` if none is found, or there's no search implementation for
/// current platform. No platform has a search implementation in this build.
pub fn find_bf2() -> (r: Option<PathBuf>)
    ensures
        r is None,
{
    None
}

} // verus!
