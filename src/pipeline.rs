//! What a packaging run does, decided before any file is touched, and how
//! the outcome of the packaging command is judged.

use vstd::prelude::*;
use crate::error::WheelError;
use crate::header::{header_path, header_path_of};
use crate::metadata::{check_metadata, dylib_name, has_dylib, is_first_dylib, manifest_valid, PackageMetadata};
use crate::names::{module_name, suffix_of, underscored, Platform};
use crate::paths::{relative_crate_dir, resolved_crate_dir};
use crate::templates::SetupPyVars;

verus! {

/// Where the install script is written, relative to the packaging directory.
pub const SETUP_PY_PATH: &'static str = "setup.py";

/// The program that builds the wheel.
pub const PACKAGING_PROGRAM: &'static str = "python";

/// The files that a run writes, and the values they are made from.
#[derive(Clone, Debug)]
pub struct ScaffoldPlan {
    /// The Python module name.
    pub module_name: String,
    /// The library name of the dynamic library.
    pub c_dylib: String,
    /// The crate directory relative to the packaging directory.
    pub crate_dir: String,
    /// Where the header goes; it is written on every run.
    pub header_path: String,
    /// The package directory, created when missing.
    pub package_dir: String,
    /// Where the package stub goes.
    pub init_py_path: String,
    /// The install script's variables, when the script is to be written.
    pub setup_py: Option<SetupPyVars>,
    /// Whether the package stub is to be written.
    pub write_init_py: bool,
}

/// The install script's variables for a package.
pub open spec fn setup_vars_fit(
    v: SetupPyVars,
    module: Seq<char>,
    c_dylib: Seq<char>,
    version: Seq<char>,
    crate_dir: Seq<char>,
    platform: Platform,
) -> bool {
    &&& v.name@ == module
    &&& v.c_dylib@ == c_dylib
    &&& v.version@ == version
    &&& v.url@ == "url"@
    &&& v.author@ == "authors"@
    &&& v.description@ == "description"@
    &&& v.executable_file_ending@ == suffix_of(platform)
    &&& v.crate_dir@ == crate_dir
}

/// The plan of a run for `meta`, once its crate directory is known.
pub open spec fn plan_fits(
    p: ScaffoldPlan,
    meta: PackageMetadata,
    crate_dir: Seq<char>,
    platform: Platform,
    setup_py_exists: bool,
    init_py_exists: bool,
) -> bool {
    &&& p.module_name@ == underscored(meta.name@)
    &&& exists|i: int|
        is_first_dylib(meta.targets@, i) && p.c_dylib@ == underscored(
            #[trigger] meta.targets@[i].name@,
        )
    &&& p.crate_dir@ == crate_dir
    &&& p.header_path@ == header_path_of(p.module_name@)
    &&& p.package_dir@ == p.module_name@
    &&& p.init_py_path@ == p.module_name@ + "/__init__.py"@
    &&& p.write_init_py == !init_py_exists
    &&& match p.setup_py {
        Some(v) => !setup_py_exists && setup_vars_fit(
            v,
            p.module_name@,
            p.c_dylib@,
            meta.version@,
            crate_dir,
            platform,
        ),
        None => setup_py_exists,
    }
}

/// Decides what a run writes for the package `meta`, whose manifest lies in
/// `workspace_root`, when run from `packaging_dir`. The header is always
/// written; the install script and the package stub only where they are
/// missing, so that edits to them survive. Where the run cannot go on, the
/// error comes before any file is written: first a manifest without name or
/// version, then a package without a dynamic library, then a crate directory
/// that cannot be reached from the packaging directory.
///
/// Known limitation: whether a file exists is read before the run and the
/// file is written later, without an exclusive create, so two runs in the
/// same directory at once can race; concurrent runs are not supported.
pub fn plan_scaffold(
    meta: &PackageMetadata,
    workspace_root: &str,
    packaging_dir: &str,
    platform: Platform,
    setup_py_exists: bool,
    init_py_exists: bool,
) -> (r: Result<ScaffoldPlan, WheelError>)
    ensures
        r is Err <==> (!manifest_valid(*meta) || !has_dylib(meta.targets@) || resolved_crate_dir(
            workspace_root@,
            packaging_dir@,
        ) is Err),
        !manifest_valid(*meta) ==> r == Err::<ScaffoldPlan, WheelError>(
            WheelError::InvalidManifest,
        ),
        manifest_valid(*meta) && !has_dylib(meta.targets@) ==> r == Err::<
            ScaffoldPlan,
            WheelError,
        >(WheelError::NoDynamicLibraryTarget),
        manifest_valid(*meta) && has_dylib(meta.targets@) && resolved_crate_dir(
            workspace_root@,
            packaging_dir@,
        ) is Err ==> r == Err::<ScaffoldPlan, WheelError>(WheelError::PathDiff),
        r matches Ok(p) ==> plan_fits(
            p,
            *meta,
            resolved_crate_dir(workspace_root@, packaging_dir@)->Ok_0,
            platform,
            setup_py_exists,
            init_py_exists,
        ),
        // a package with a dynamic library gets every file that is missing
        manifest_valid(*meta) && resolved_crate_dir(workspace_root@, packaging_dir@) is Ok
            && has_dylib(meta.targets@) && !setup_py_exists && !init_py_exists ==> (r matches Ok(p)
            && p.setup_py is Some && p.write_init_py),
        // one without gets none
        !has_dylib(meta.targets@) ==> r is Err,
        // an install script that is there is never rewritten, the header always is
        r matches Ok(p) ==> (setup_py_exists ==> p.setup_py is None) && p.header_path@
            == header_path_of(underscored(meta.name@)),
        workspace_root@ == packaging_dir@ ==> (r matches Ok(p) ==> p.crate_dir@ == seq!['.']),
        // run from the workspace root, a valid package with a dynamic library is planned
        workspace_root@ == packaging_dir@ && manifest_valid(*meta) && has_dylib(meta.targets@)
            ==> r is Ok,
{
    match check_metadata(meta) {
        Ok(()) => {},
        Err(e) => {
            return Err(e);
        },
    }
    let c_dylib = match dylib_name(&meta.targets) {
        Ok(n) => n,
        Err(e) => {
            return Err(e);
        },
    };
    let crate_dir = match relative_crate_dir(workspace_root, packaging_dir) {
        Ok(d) => d,
        Err(e) => {
            return Err(e);
        },
    };
    let module = module_name(meta.name.as_str());
    let setup_py = if setup_py_exists {
        None
    } else {
        Some(
            SetupPyVars::new(
                module.as_str(),
                c_dylib.as_str(),
                meta.version.as_str(),
                "url",
                "authors",
                "description",
                crate_dir.as_str(),
                platform,
            ),
        )
    };
    let mut init_py_path = module.clone();
    init_py_path.append("/__init__.py");
    let plan = ScaffoldPlan {
        header_path: header_path(module.as_str()),
        package_dir: module.clone(),
        module_name: module,
        c_dylib,
        crate_dir,
        init_py_path,
        setup_py,
        write_init_py: !init_py_exists,
    };
    Ok(plan)
}

/// How the packaging command went.
#[derive(Clone, Copy, Debug, PartialEq, Eq, Structural)]
pub enum PackagingRun {
    /// It could not be started.
    NotStarted,
    /// It ran and ended, with its exit code where it had one.
    Finished(Option<i32>),
}

/// Judges the packaging command: a command that could not be started fails
/// the run; one that ran is reported with its exit code, whatever that is.
/// This asymmetry is a deliberate and debatable policy: a non-zero exit of
/// the packaging tool is left for the reader of its output to judge, and does
/// not fail the run.
pub fn packaging_outcome(run: PackagingRun) -> (r: Result<Option<i32>, WheelError>)
    ensures
        match run {
            PackagingRun::NotStarted => r == Err::<Option<i32>, WheelError>(WheelError::Spawn),
            PackagingRun::Finished(code) => r == Ok::<Option<i32>, WheelError>(code),
        },
{
    match run {
        PackagingRun::NotStarted => Err(WheelError::Spawn),
        PackagingRun::Finished(code) => Ok(code),
    }
}

/// The arguments handed to the packaging program: build a wheel.
pub fn packaging_args() -> (r: Vec<String>)
    ensures
        r@.len() == 2,
        r@[0]@ == "setup.py"@,
        r@[1]@ == "bdist_wheel"@,
{
    let mut v: Vec<String> = Vec::new();
    v.push(String::from_str(SETUP_PY_PATH));
    v.push(String::from_str("bdist_wheel"));
    v
}

} // verus!
