//! What can stop a packaging run.

use vstd::prelude::*;

verus! {

/// Why a packaging run stopped.
#[derive(Clone, Copy, Debug, PartialEq, Eq, Structural)]
pub enum WheelError {
    /// No build manifest was found from the working directory upwards.
    ManifestNotFound,
    /// The manifest lacks a package name or version.
    InvalidManifest,
    /// No target of the package builds a dynamic C library.
    NoDynamicLibraryTarget,
    /// The crate directory cannot be expressed relative to the packaging directory.
    PathDiff,
    /// The header generator reported an error.
    HeaderGeneration,
    /// A generated file could not be written.
    FileWrite,
    /// The packaging command could not be started.
    Spawn,
}

} // verus!
