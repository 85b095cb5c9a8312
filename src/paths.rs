//! Where the crate lies as seen from the packaging directory.

use vstd::prelude::*;
use crate::error::WheelError;

verus! {

/// What `pathdiff::diff_paths(path, base)` returns, as text.
pub uninterp spec fn path_diff(path: Seq<char>, base: Seq<char>) -> Option<Seq<char>>;

/// Relies on `pathdiff::diff_paths`: the relative path that leads from `base`
/// to `path`, worked out from the components of the two paths alone, or none.
/// Two equal paths give the empty path. The inputs are text, so each component
/// of the result is text as well and the conversion loses nothing.
#[verifier::external_body]
fn diff_paths(path: &str, base: &str) -> (r: Option<String>)
    ensures
        r.is_some() == path_diff(path@, base@).is_some(),
        r.is_some() ==> r.unwrap()@ == path_diff(path@, base@).unwrap(),
        path@ == base@ ==> r.is_some() && r.unwrap()@.len() == 0,
{
    match pathdiff::diff_paths(path, base) {
        Some(p) => Some(p.to_string_lossy().into_owned()),
        None => None,
    }
}

/// A relative path as written into the packaging script: the empty path
/// becomes the current-directory token `.`.
pub open spec fn normalized_dir(d: Seq<char>) -> Seq<char> {
    if d.len() == 0 {
        seq!['.']
    } else {
        d
    }
}

/// The crate directory relative to the packaging directory, as the pipeline
/// uses it.
pub open spec fn resolved_crate_dir(crate_dir: Seq<char>, packaging_dir: Seq<char>) -> Result<
    Seq<char>,
    WheelError,
> {
    match path_diff(crate_dir, packaging_dir) {
        Some(d) => Ok(normalized_dir(d)),
        None => Err(WheelError::PathDiff),
    }
}

/// Turns the outcome of a path difference into the directory written into the
/// packaging script: no path is an error, the empty path becomes `.`.
pub fn normalize_crate_dir(diff: Option<String>) -> (r: Result<String, WheelError>)
    ensures
        match diff {
            Some(d) => r matches Ok(s) && s@ == normalized_dir(d@),
            None => r == Err::<String, WheelError>(WheelError::PathDiff),
        },
        r matches Ok(s) ==> s@.len() > 0,
{
    match diff {
        Some(d) => {
            if d.as_str().is_empty() {
                proof {
                    reveal_strlit(".");
                }
                Ok(String::from_str("."))
            } else {
                Ok(d)
            }
        },
        None => Err(WheelError::PathDiff),
    }
}

/// The path from `packaging_dir` to `crate_dir`, never empty: when the two
/// are the same directory it is `.`.
pub fn relative_crate_dir(crate_dir: &str, packaging_dir: &str) -> (r: Result<String, WheelError>)
    ensures
        r.is_ok() <==> resolved_crate_dir(crate_dir@, packaging_dir@).is_ok(),
        r matches Ok(s) ==> resolved_crate_dir(crate_dir@, packaging_dir@) == Ok::<
            Seq<char>,
            WheelError,
        >(s@),
        r is Err ==> r == Err::<String, WheelError>(WheelError::PathDiff),
        r matches Ok(s) ==> s@.len() > 0,
        crate_dir@ == packaging_dir@ ==> (r matches Ok(s) && s@ == seq!['.']),
{
    let diff = diff_paths(crate_dir, packaging_dir);
    normalize_crate_dir(diff)
}

} // verus!
