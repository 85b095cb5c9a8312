//! The package facts that a run needs from the build manifest.

use vstd::prelude::*;
use crate::error::WheelError;
use crate::names::{module_name, underscored};

verus! {

/// What a declared build target compiles to.
#[derive(Clone, Copy, Debug, PartialEq, Eq, Structural)]
pub enum ArtifactKind {
    DynamicLibrary,
    Executable,
    Other,
}

/// One declared build target.
#[derive(Clone, Debug)]
pub struct TargetSpec {
    pub kind: ArtifactKind,
    pub name: String,
}

/// The package as the manifest declares it.
#[derive(Clone, Debug)]
pub struct PackageMetadata {
    pub name: String,
    pub version: String,
    pub targets: Vec<TargetSpec>,
}

/// Whether the manifest gave the package a name and a version.
pub open spec fn manifest_valid(meta: PackageMetadata) -> bool {
    meta.name@.len() > 0 && meta.version@.len() > 0
}

/// Accepts a package only with a name and a version.
pub fn check_metadata(meta: &PackageMetadata) -> (r: Result<(), WheelError>)
    ensures
        r is Ok <==> manifest_valid(*meta),
        r is Err ==> r == Err::<(), WheelError>(WheelError::InvalidManifest),
{
    if meta.name.as_str().is_empty() || meta.version.as_str().is_empty() {
        Err(WheelError::InvalidManifest)
    } else {
        Ok(())
    }
}

/// Whether some target of `ts` builds a dynamic library.
pub open spec fn has_dylib(ts: Seq<TargetSpec>) -> bool {
    exists|i: int| 0 <= i < ts.len() && ts[i].kind == ArtifactKind::DynamicLibrary
}

/// Whether `i` is the first target of `ts` that builds a dynamic library.
pub open spec fn is_first_dylib(ts: Seq<TargetSpec>, i: int) -> bool {
    &&& 0 <= i < ts.len()
    &&& ts[i].kind == ArtifactKind::DynamicLibrary
    &&& forall|j: int| 0 <= j < i ==> ts[j].kind != ArtifactKind::DynamicLibrary
}

/// The position of the first target that builds a dynamic library, if any.
pub fn find_dylib_target(targets: &Vec<TargetSpec>) -> (r: Option<usize>)
    ensures
        r is None <==> !has_dylib(targets@),
        r matches Some(i) ==> is_first_dylib(targets@, i as int),
{
    let mut i: usize = 0;
    while i < targets.len()
        invariant
            i <= targets@.len(),
            forall|j: int| 0 <= j < i ==> targets@[j].kind != ArtifactKind::DynamicLibrary,
        decreases targets@.len() - i,
    {
        match targets[i].kind {
            ArtifactKind::DynamicLibrary => {
                return Some(i);
            },
            _ => {},
        }
        i = i + 1;
    }
    None
}

/// The library name of the package's dynamic library: the name of its first
/// dynamic-library target with hyphens made underscores. A package without
/// one cannot be packaged.
pub fn dylib_name(targets: &Vec<TargetSpec>) -> (r: Result<String, WheelError>)
    ensures
        r is Err <==> !has_dylib(targets@),
        r is Err ==> r == Err::<String, WheelError>(WheelError::NoDynamicLibraryTarget),
        r matches Ok(s) ==> exists|i: int|
            is_first_dylib(targets@, i) && s@ == underscored(#[trigger] targets@[i].name@),
{
    match find_dylib_target(targets) {
        Some(i) => {
            let s = module_name(targets[i].name.as_str());
            assert(is_first_dylib(targets@, i as int));
            Ok(s)
        },
        None => Err(WheelError::NoDynamicLibraryTarget),
    }
}

} // verus!
