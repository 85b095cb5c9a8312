//! Identifiers derived from a package: the Python module name, the
//! executable suffix of a platform and the place of the generated header.

use vstd::prelude::*;

verus! {

/// The platform family that the packaged library is built for.
#[derive(Clone, Copy, Debug, PartialEq, Eq, Structural)]
pub enum Platform {
    Windows,
    Unix,
}

/// `s` with every hyphen replaced by an underscore.
pub open spec fn underscored(s: Seq<char>) -> Seq<char> {
    s.map_values(|c: char| if c == '-' { '_' } else { c })
}

/// The executable suffix of a platform family.
pub open spec fn suffix_of(p: Platform) -> Seq<char> {
    match p {
        Platform::Windows => seq!['.', 'e', 'x', 'e'],
        Platform::Unix => Seq::empty(),
    }
}

/// Replaces every hyphen of `name` by an underscore; nothing else changes.
pub fn module_name(name: &str) -> (r: String)
    ensures
        r@ == underscored(name@),
        r@.len() == name@.len(),
        forall|i: int| 0 <= i < r@.len() ==> r@[i] != '-',
{
    let n = name.unicode_len();
    let mut out = String::new();
    let mut i: usize = 0;
    while i < n
        invariant
            n == name@.len(),
            i <= n,
            out@ == underscored(name@.subrange(0, i as int)),
        decreases n - i,
    {
        let c = name.get_char(i);
        if c == '-' {
            proof {
                reveal_strlit("_");
            }
            out.append("_");
        } else {
            out.append(name.substring_char(i, i + 1));
        }
        assert(underscored(name@.subrange(0, i + 1)) =~= underscored(name@.subrange(0, i as int))
            + underscored(name@.subrange(i as int, i + 1)));
        i = i + 1;
    }
    assert(name@.subrange(0, n as int) =~= name@);
    out
}

/// The executable suffix of `platform`: `.exe` on Windows, empty elsewhere.
pub fn executable_suffix(platform: Platform) -> (r: &'static str)
    ensures
        r@ == suffix_of(platform),
{
    proof {
        reveal_strlit(".exe");
        reveal_strlit("");
    }
    match platform {
        Platform::Windows => ".exe",
        Platform::Unix => "",
    }
}

} // verus!
