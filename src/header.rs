//! The C header of the library: where it goes, and what a run makes of the
//! header generator's outcome.

use vstd::prelude::*;
use crate::error::WheelError;

verus! {

/// Where the header of the module `module` is written.
pub open spec fn header_path_of(module: Seq<char>) -> Seq<char> {
    "target/"@ + module + ".h"@
}

/// A header and the path it is written to.
#[derive(Clone, Debug)]
pub struct GeneratedHeader {
    pub path: String,
    pub text: String,
}

/// The path of the header of the module `module`: `target/<module>.h`.
pub fn header_path(module: &str) -> (r: String)
    ensures
        r@ == header_path_of(module@),
{
    let mut p = String::from_str("target/");
    p.append(module);
    p.append(".h");
    p
}

/// The header file of the module `crate_name` from what the header generator
/// gave: no text means that generation failed, which stops the run. The
/// header is produced anew on every run.
pub fn header_artifact(crate_name: &str, generated: Option<String>) -> (r: Result<
    GeneratedHeader,
    WheelError,
>)
    ensures
        match generated {
            Some(t) => r matches Ok(h) && h.path@ == header_path_of(crate_name@) && h.text@
                == t@,
            None => r == Err::<GeneratedHeader, WheelError>(WheelError::HeaderGeneration),
        },
{
    match generated {
        Some(text) => Ok(GeneratedHeader { path: header_path(crate_name), text }),
        None => Err(WheelError::HeaderGeneration),
    }
}

} // verus!
