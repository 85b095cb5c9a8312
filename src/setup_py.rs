//! The install script by plain placeholder substitution: each `{{{key}}}`
//! of the template is replaced by its value, one key after the other.

use vstd::prelude::*;
use crate::names::{executable_suffix, suffix_of, Platform};
use crate::text::{replace_all, replace_text};

verus! {

/// The install script template for plain substitution.
pub const SIMPLE_SETUP_PY: &'static str = r#"import subprocess

from setuptools import setup
from setuptools.command.build_py import build_py


class BuildWithCargo(build_py):
    def run(self):
        subprocess.check_call(["cargo{{{executable_file_ending}}}", "build", "--release"])
        build_py.run(self)


setup(
    name="{{{name}}}",
    version="{{{version}}}",
    url="{{{url}}}",
    author="{{{author}}}",
    description="{{{description}}}",
    packages=["{{{name}}}"],
    cmdclass={"build_py": BuildWithCargo},
)
"#;

/// The install script with the six values substituted, in this order.
pub open spec fn simple_setup_py(
    name: Seq<char>,
    version: Seq<char>,
    url: Seq<char>,
    author: Seq<char>,
    description: Seq<char>,
    suffix: Seq<char>,
) -> Seq<char> {
    let s = replace_all(SIMPLE_SETUP_PY@, "{{{name}}}"@, name);
    let s = replace_all(s, "{{{version}}}"@, version);
    let s = replace_all(s, "{{{url}}}"@, url);
    let s = replace_all(s, "{{{author}}}"@, author);
    let s = replace_all(s, "{{{description}}}"@, description);
    replace_all(s, "{{{executable_file_ending}}}"@, suffix)
}

/// Renders the install script by plain substitution; the executable suffix
/// is the one of `platform`.
pub fn render_with(
    name: &str,
    version: &str,
    url: &str,
    author: &str,
    description: &str,
    platform: Platform,
) -> (r: String)
    ensures
        r@ == simple_setup_py(name@, version@, url@, author@, description@, suffix_of(platform)),
{
    let s = replace_text(SIMPLE_SETUP_PY, "{{{name}}}", name);
    let s = replace_text(s.as_str(), "{{{version}}}", version);
    let s = replace_text(s.as_str(), "{{{url}}}", url);
    let s = replace_text(s.as_str(), "{{{author}}}", author);
    let s = replace_text(s.as_str(), "{{{description}}}", description);
    replace_text(s.as_str(), "{{{executable_file_ending}}}", executable_suffix(platform))
}

} // verus!
