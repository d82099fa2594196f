//! Game asset handling: loading textures and shaders from level files, converting texture data
//! from the files' Direct3D 9 formats into formats the renderer takes, and the rules for choosing
//! among a texture's stored formats.

use vstd::prelude::*;

pub mod shader_loader;
pub mod texture_loader;

verus! {

/// A level file known to the engine: a label and, for files on disk, where it lies.
pub struct LevelFile {
    pub label: String,
    pub path: Option<std::path::PathBuf>,
}

} // verus!
