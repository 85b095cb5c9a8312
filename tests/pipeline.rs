use cargo_wheel::error::WheelError;
use cargo_wheel::header::{header_artifact, header_path};
use cargo_wheel::metadata::{check_metadata, dylib_name, find_dylib_target, ArtifactKind, PackageMetadata, TargetSpec};
use cargo_wheel::names::{executable_suffix, module_name, Platform};
use cargo_wheel::paths::{normalize_crate_dir, relative_crate_dir};
use cargo_wheel::pipeline::{packaging_args, packaging_outcome, plan_scaffold, PackagingRun};
use cargo_wheel::setup_py::render_with;
use cargo_wheel::text::replace_text;
use cargo_wheel::templates::{render_init_py, render_setup_py, SetupPyVars, INIT_PY, SETUP_PY};

fn target(kind: ArtifactKind, name: &str) -> TargetSpec {
    TargetSpec { kind, name: name.to_string() }
}

fn package(name: &str, version: &str, targets: Vec<TargetSpec>) -> PackageMetadata {
    PackageMetadata { name: name.to_string(), version: version.to_string(), targets }
}

#[test]
fn hyphens_become_underscores() {
    assert_eq!(module_name("my-cool-lib"), "my_cool_lib");
    assert_eq!(module_name("plain"), "plain");
    assert_eq!(module_name(""), "");
    assert_eq!(module_name("--"), "__");
}

#[test]
fn suffix_per_platform() {
    assert_eq!(executable_suffix(Platform::Windows), ".exe");
    assert_eq!(executable_suffix(Platform::Unix), "");
}

#[test]
fn empty_difference_becomes_dot() {
    assert_eq!(normalize_crate_dir(Some(String::new())), Ok(".".to_string()));
    assert_eq!(normalize_crate_dir(Some("../lib".to_string())), Ok("../lib".to_string()));
    assert_eq!(normalize_crate_dir(None), Err(WheelError::PathDiff));
}

#[test]
fn same_directory_is_dot() {
    assert_eq!(relative_crate_dir("/work/foo", "/work/foo"), Ok(".".to_string()));
}

#[test]
fn relative_directories() {
    assert_eq!(relative_crate_dir("/work", "/work/py"), Ok("..".to_string()));
    assert_eq!(relative_crate_dir("/work/foo", "/work"), Ok("foo".to_string()));
    assert_eq!(relative_crate_dir("/a/b", "/a/c"), Ok("../b".to_string()));
    assert_eq!(relative_crate_dir("b", "/a"), Err(WheelError::PathDiff));
}

#[test]
fn first_dynamic_library_is_chosen() {
    let ts = vec![
        target(ArtifactKind::Executable, "tool"),
        target(ArtifactKind::DynamicLibrary, "first-lib"),
        target(ArtifactKind::DynamicLibrary, "second"),
    ];
    assert_eq!(find_dylib_target(&ts), Some(1));
    assert_eq!(dylib_name(&ts), Ok("first_lib".to_string()));
}

#[test]
fn no_dynamic_library() {
    let ts = vec![target(ArtifactKind::Executable, "tool"), target(ArtifactKind::Other, "x")];
    assert_eq!(find_dylib_target(&ts), None);
    assert_eq!(dylib_name(&ts), Err(WheelError::NoDynamicLibraryTarget));
    assert_eq!(dylib_name(&Vec::new()), Err(WheelError::NoDynamicLibraryTarget));
}

#[test]
fn header_goes_to_target() {
    assert_eq!(header_path("foo_bar"), "target/foo_bar.h");
    let h = header_artifact("foo_bar", Some("int f(void);".to_string())).unwrap();
    assert_eq!(h.path, "target/foo_bar.h");
    assert_eq!(h.text, "int f(void);");
    assert_eq!(header_artifact("foo_bar", None).unwrap_err(), WheelError::HeaderGeneration);
}

#[test]
fn plain_substitution() {
    let s = render_with("foo_bar", "1.2.3", "http://x", "me", "a lib", Platform::Windows);
    assert!(s.contains("name=\"foo_bar\""));
    assert!(s.contains("version=\"1.2.3\""));
    assert!(s.contains("url=\"http://x\""));
    assert!(s.contains("author=\"me\""));
    assert!(s.contains("description=\"a lib\""));
    assert!(s.contains("\"cargo.exe\""));
    assert!(!s.contains("{{{"));
    let u = render_with("foo_bar", "1.2.3", "u", "a", "d", Platform::Unix);
    assert!(u.contains("\"cargo\""));
}

#[test]
fn setup_vars_hold_arguments() {
    let v = SetupPyVars::new("n", "c", "0.1.0", "u", "a", "d", ".", Platform::Windows);
    assert_eq!(v.name, "n");
    assert_eq!(v.c_dylib, "c");
    assert_eq!(v.version, "0.1.0");
    assert_eq!(v.url, "u");
    assert_eq!(v.author, "a");
    assert_eq!(v.description, "d");
    assert_eq!(v.crate_dir, ".");
    assert_eq!(v.executable_file_ending, ".exe");
    let b = v.bindings();
    assert_eq!(b.len(), 8);
    assert_eq!(b[0], ("name".to_string(), "n".to_string()));
    assert_eq!(b[7], ("crate_dir".to_string(), ".".to_string()));
}

#[test]
fn setup_py_is_rendered() {
    let v = SetupPyVars::new("foo_bar", "foobar", "1.2.3", "url", "authors", "description", "..", Platform::Unix);
    let s = render_setup_py(&v);
    assert!(s.contains("name=\"foo_bar\""));
    assert!(s.contains("version=\"1.2.3\""));
    assert!(s.contains("library_file(\"foobar\")"));
    assert!(s.contains("\"..\")"));
    assert!(!s.contains("{{"));
}

#[test]
fn init_py_is_rendered() {
    let s = render_init_py("foo_bar");
    assert!(s.contains("_library_file(\"foo_bar\")"));
    assert!(!s.contains("{{"));
}

#[test]
fn end_to_end_plan() {
    let meta = package("foo-bar", "1.2.3", vec![target(ArtifactKind::DynamicLibrary, "foobar")]);
    let plan = plan_scaffold(&meta, "/ws/foo", "/ws/foo", Platform::Unix, false, false).unwrap();
    assert_eq!(plan.module_name, "foo_bar");
    assert_eq!(plan.c_dylib, "foobar");
    assert_eq!(plan.crate_dir, ".");
    assert_eq!(plan.header_path, "target/foo_bar.h");
    assert_eq!(plan.package_dir, "foo_bar");
    assert_eq!(plan.init_py_path, "foo_bar/__init__.py");
    assert!(plan.write_init_py);
    let vars = plan.setup_py.clone().unwrap();
    assert_eq!(vars.url, "url");
    assert_eq!(vars.author, "authors");
    assert_eq!(vars.description, "description");
    let setup = render_setup_py(&vars);
    assert!(setup.contains("foo_bar"));
    assert!(setup.contains("1.2.3"));
    let init = render_init_py(&plan.module_name);
    assert!(init.contains("foo_bar"));
}

#[test]
fn no_dylib_stops_before_writing() {
    let meta = package("foo", "1.0.0", vec![target(ArtifactKind::Executable, "foo")]);
    let r = plan_scaffold(&meta, "/ws", "/ws", Platform::Unix, false, false);
    assert_eq!(r.unwrap_err(), WheelError::NoDynamicLibraryTarget);
}

#[test]
fn path_error_comes_after_target_check() {
    let meta = package("foo", "1.0.0", vec![]);
    let r = plan_scaffold(&meta, "ws", "/ws", Platform::Unix, false, false);
    assert_eq!(r.unwrap_err(), WheelError::NoDynamicLibraryTarget);
    let meta = package("foo", "1.0.0", vec![target(ArtifactKind::DynamicLibrary, "foo")]);
    let r = plan_scaffold(&meta, "ws", "/ws", Platform::Unix, false, false);
    assert_eq!(r.unwrap_err(), WheelError::PathDiff);
}

#[test]
fn existing_files_are_kept() {
    let meta = package("foo-bar", "1.2.3", vec![target(ArtifactKind::DynamicLibrary, "foobar")]);
    for _ in 0..2 {
        let plan = plan_scaffold(&meta, "/ws", "/ws/py", Platform::Windows, true, true).unwrap();
        assert!(plan.setup_py.is_none());
        assert!(!plan.write_init_py);
        assert_eq!(plan.header_path, "target/foo_bar.h");
        assert_eq!(plan.crate_dir, "..");
    }
}

#[test]
fn packaging_status_policy() {
    assert_eq!(packaging_outcome(PackagingRun::NotStarted), Err(WheelError::Spawn));
    assert_eq!(packaging_outcome(PackagingRun::Finished(Some(1))), Ok(Some(1)));
    assert_eq!(packaging_outcome(PackagingRun::Finished(None)), Ok(None));
    assert_eq!(packaging_args(), vec!["setup.py".to_string(), "bdist_wheel".to_string()]);
}

#[test]
fn name_and_version_are_required() {
    let lib = || vec![target(ArtifactKind::DynamicLibrary, "foobar")];
    assert_eq!(check_metadata(&package("foo", "1.0.0", lib())), Ok(()));
    assert_eq!(check_metadata(&package("", "1.0.0", lib())), Err(WheelError::InvalidManifest));
    assert_eq!(check_metadata(&package("foo", "", lib())), Err(WheelError::InvalidManifest));
    let r = plan_scaffold(&package("foo", "", lib()), "/ws", "/ws", Platform::Unix, false, false);
    assert_eq!(r.unwrap_err(), WheelError::InvalidManifest);
}

#[test]
fn rendering_is_exact_substitution() {
    assert_eq!(render_init_py("foo_bar"), INIT_PY.replace("{{{name}}}", "foo_bar"));
    let v = SetupPyVars::new("m", "lib", "2.0.0", "u", "a", "d", "../c", Platform::Windows);
    let expected = SETUP_PY
        .replace("{{{name}}}", "m")
        .replace("{{{c_dylib}}}", "lib")
        .replace("{{{version}}}", "2.0.0")
        .replace("{{{url}}}", "u")
        .replace("{{{author}}}", "a")
        .replace("{{{description}}}", "d")
        .replace("{{{executable_file_ending}}}", ".exe")
        .replace("{{{crate_dir}}}", "../c");
    assert_eq!(render_setup_py(&v), expected);
}

#[test]
fn substituted_values_are_not_read_again() {
    let v = SetupPyVars::new("m", "lib", "1.0.0", "u", "a", "{{{name}}} & <b>", ".", Platform::Unix);
    let s = render_setup_py(&v);
    assert!(s.contains("description=\"{{{name}}} & <b>\""));
}

#[test]
fn text_replacement_like_str_replace() {
    assert_eq!(replace_text("ab", "", "x"), "ab".replace("", "x"));
    assert_eq!(replace_text("ab", "", "x"), "xaxbx");
    assert_eq!(replace_text("", "", "x"), "x");
    assert_eq!(replace_text("aaa", "aa", "b"), "ba");
    assert_eq!(replace_text("a-b-c", "-", "::"), "a::b::c");
    assert_eq!(replace_text("abc", "abcd", "z"), "abc");
}
