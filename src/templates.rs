//! The packaging script and the package stub, rendered from logic-less
//! templates by the mustache engine.

use vstd::prelude::*;
use crate::names::{executable_suffix, suffix_of, Platform};

verus! {

/// The install script template. Its variables are those of [`SetupPyVars`].
pub const SETUP_PY: &'static str = r#"import os
import shutil
import subprocess
import sys

from setuptools import setup
from setuptools.command.build_py import build_py

CRATE_DIR = os.path.join(os.path.dirname(os.path.abspath(__file__)), "{{{crate_dir}}}")
CARGO = "cargo{{{executable_file_ending}}}"


def library_file(name):
    if sys.platform.startswith("win"):
        return name + ".dll"
    if sys.platform == "darwin":
        return "lib" + name + ".dylib"
    return "lib" + name + ".so"


class BuildWithCargo(build_py):
    def run(self):
        subprocess.check_call([CARGO, "build", "--release"], cwd=CRATE_DIR)
        built = os.path.join(CRATE_DIR, "target", "release", library_file("{{{c_dylib}}}"))
        header = os.path.join(CRATE_DIR, "target", "{{{name}}}.h")
        shutil.copy(built, os.path.join("{{{name}}}", library_file("{{{c_dylib}}}")))
        shutil.copy(header, os.path.join("{{{name}}}", "{{{name}}}.h"))
        build_py.run(self)


setup(
    name="{{{name}}}",
    version="{{{version}}}",
    url="{{{url}}}",
    author="{{{author}}}",
    description="{{{description}}}",
    packages=["{{{name}}}"],
    package_data={"{{{name}}}": ["*.so", "*.dylib", "*.dll", "*.h"]},
    cmdclass={"build_py": BuildWithCargo},
    zip_safe=False,
)
"#;

/// The package stub template; its one variable is `name`.
pub const INIT_PY: &'static str = r#"import os
import sys
from ctypes import cdll


def _library_file(name):
    if sys.platform.startswith("win"):
        return name + ".dll"
    if sys.platform == "darwin":
        return "lib" + name + ".dylib"
    return "lib" + name + ".so"


lib = cdll.LoadLibrary(os.path.join(os.path.dirname(__file__), _library_file("{{{name}}}")))
"#;

/// The values substituted into the install script.
#[derive(Clone, Debug)]
pub struct SetupPyVars {
    pub name: String,
    pub c_dylib: String,
    pub version: String,
    pub url: String,
    pub author: String,
    pub description: String,
    pub executable_file_ending: String,
    pub crate_dir: String,
}

/// A list of key and value strings as text.
pub open spec fn pairs_view(v: Seq<(String, String)>) -> Seq<(Seq<char>, Seq<char>)> {
    v.map_values(|p: (String, String)| (p.0@, p.1@))
}

/// The variable mapping of the install script.
pub open spec fn setup_py_bindings(v: SetupPyVars) -> Seq<(Seq<char>, Seq<char>)> {
    seq![
        ("name"@, v.name@),
        ("c_dylib"@, v.c_dylib@),
        ("version"@, v.version@),
        ("url"@, v.url@),
        ("author"@, v.author@),
        ("description"@, v.description@),
        ("executable_file_ending"@, v.executable_file_ending@),
        ("crate_dir"@, v.crate_dir@),
    ]
}

/// The variable mapping of the package stub.
pub open spec fn init_py_bindings(name: Seq<char>) -> Seq<(Seq<char>, Seq<char>)> {
    seq![("name"@, name)]
}

/// The value bound to `key` in `vars`: the last binding of the key wins, and
/// a key without one gives the empty text.
pub open spec fn bound_value(vars: Seq<(Seq<char>, Seq<char>)>, key: Seq<char>) -> Seq<char>
    decreases vars.len(),
{
    if vars.len() == 0 {
        Seq::empty()
    } else if vars.last().0 == key {
        vars.last().1
    } else {
        bound_value(vars.drop_last(), key)
    }
}

/// Where the first `}}}` of `t` at or after `i` starts, or `t.len()` if none.
pub open spec fn tag_end(t: Seq<char>, i: int) -> int
    decreases t.len() - i,
{
    if i < 0 || i + 3 > t.len() {
        t.len() as int
    } else if t.subrange(i, i + 3) == seq!['}', '}', '}'] {
        i
    } else {
        tag_end(t, i + 1)
    }
}

/// `t` with each tag `{{{key}}}` replaced by the value bound to `key`, all at
/// once: what was substituted is never read again.
pub open spec fn filled(t: Seq<char>, vars: Seq<(Seq<char>, Seq<char>)>) -> Seq<char>
    decreases t.len(),
{
    if t.len() == 0 {
        t
    } else if t.len() >= 3 && t.subrange(0, 3) == seq!['{', '{', '{'] && 3 <= tag_end(t, 3)
        && tag_end(t, 3) + 3 <= t.len() {
        let j = tag_end(t, 3);
        bound_value(vars, t.subrange(3, j)) + filled(t.subrange(j + 3, t.len() as int), vars)
    } else {
        seq![t[0]] + filled(t.subrange(1, t.len() as int), vars)
    }
}

#[verifier::external_type_specification]
#[verifier::external_body]
pub struct ExMustacheError(mustache::Error);

/// Relies on `mustache::compile_str` followed by
/// `Template::render_data_to_string`, with the variables given as a map of
/// strings built by `MapBuilder::insert_str`. Only the two templates of this
/// module are accepted. Their only tags are `{{{key}}}` with a plain key, no
/// `{{` stands elsewhere in them, and no tag is a partial (which would read a
/// file) or names the top value (which would panic). The parser keeps the text
/// between such tags as it is and trims nothing around them, and rendering
/// writes each key's string value unescaped, or nothing for an unbound key,
/// into a buffer that cannot fail.
#[verifier::external_body]
fn render_mustache(template: &str, vars: &Vec<(String, String)>) -> (r: Result<
    String,
    mustache::Error,
>)
    requires
        template@ == SETUP_PY@ || template@ == INIT_PY@,
    ensures
        r.is_ok(),
        r.unwrap()@ == filled(template@, pairs_view(vars@)),
{
    let mut data = mustache::MapBuilder::new();
    for (k, v) in vars.iter() {
        data = data.insert_str(k.as_str(), v.as_str());
    }
    match mustache::compile_str(template) {
        Ok(t) => t.render_data_to_string(&data.build()),
        Err(e) => Err(e),
    }
}

fn binding(key: &str, value: &String) -> (r: (String, String))
    ensures
        r.0@ == key@,
        r.1@ == value@,
{
    (String::from_str(key), value.clone())
}

impl SetupPyVars {
    /// Gathers the install script's variables; the executable suffix is the
    /// one of `platform`.
    pub fn new(
        name: &str,
        c_dylib: &str,
        version: &str,
        url: &str,
        author: &str,
        description: &str,
        crate_dir: &str,
        platform: Platform,
    ) -> (r: SetupPyVars)
        ensures
            r.name@ == name@,
            r.c_dylib@ == c_dylib@,
            r.version@ == version@,
            r.url@ == url@,
            r.author@ == author@,
            r.description@ == description@,
            r.executable_file_ending@ == suffix_of(platform),
            r.crate_dir@ == crate_dir@,
    {
        SetupPyVars {
            name: String::from_str(name),
            c_dylib: String::from_str(c_dylib),
            version: String::from_str(version),
            url: String::from_str(url),
            author: String::from_str(author),
            description: String::from_str(description),
            executable_file_ending: String::from_str(executable_suffix(platform)),
            crate_dir: String::from_str(crate_dir),
        }
    }

    /// The variables as (key, value) pairs, in the order of the fields.
    pub fn bindings(&self) -> (r: Vec<(String, String)>)
        ensures
            pairs_view(r@) == setup_py_bindings(*self),
    {
        let mut v: Vec<(String, String)> = Vec::new();
        v.push(binding("name", &self.name));
        v.push(binding("c_dylib", &self.c_dylib));
        v.push(binding("version", &self.version));
        v.push(binding("url", &self.url));
        v.push(binding("author", &self.author));
        v.push(binding("description", &self.description));
        v.push(binding("executable_file_ending", &self.executable_file_ending));
        v.push(binding("crate_dir", &self.crate_dir));
        assert(pairs_view(v@) =~= setup_py_bindings(*self));
        v
    }
}

/// Renders the install script from `vars`.
pub fn render_setup_py(vars: &SetupPyVars) -> (r: String)
    ensures
        r@ == filled(SETUP_PY@, setup_py_bindings(*vars)),
{
    let bindings = vars.bindings();
    render_mustache(SETUP_PY, &bindings).unwrap()
}

/// Renders the package stub of the module `name`.
pub fn render_init_py(name: &str) -> (r: String)
    ensures
        r@ == filled(INIT_PY@, init_py_bindings(name@)),
{
    let mut bindings: Vec<(String, String)> = Vec::new();
    bindings.push((String::from_str("name"), String::from_str(name)));
    assert(pairs_view(bindings@) =~= init_py_bindings(name@));
    render_mustache(INIT_PY, &bindings).unwrap()
}

} // verus!
