//! User-specified command line parameters.

use std::path::PathBuf;
use vstd::prelude::*;

verus! {

/// `std::path::PathBuf`, an owned filesystem path; carried through unopened.
#[verifier::external_type_specification]
#[verifier::external_body]
pub struct ExPathBuf(std::path::PathBuf);

/// User-specified command line parameters
pub struct Args {
    /// Overrides the path to SWBF2's game root (with a `GameData` directory).
    pub game_root: Option<PathBuf>,
    /// Forces the engine to run singlethreaded. You should generally keep this off.
    pub single_thread: bool,
}

} // verus!
