//! Plain placeholder substitution on text: every occurrence of a pattern,
//! scanned from the left without overlaps, is replaced.

use vstd::prelude::*;
use vstd::std_specs::iter::IteratorSpec;

verus! {

/// `s` with `rep` put before each character and at the end.
pub open spec fn insert_everywhere(s: Seq<char>, rep: Seq<char>) -> Seq<char>
    decreases s.len(),
{
    if s.len() == 0 {
        rep
    } else {
        rep + seq![s[0]] + insert_everywhere(s.subrange(1, s.len() as int), rep)
    }
}

/// `s` with each occurrence of `pat`, found from the left and never
/// overlapping one already replaced, replaced by `rep`. The empty pattern
/// occurs at every character boundary, the start and the end included.
pub open spec fn replace_all(s: Seq<char>, pat: Seq<char>, rep: Seq<char>) -> Seq<char>
    decreases s.len(),
{
    if pat.len() == 0 {
        insert_everywhere(s, rep)
    } else if s.len() < pat.len() {
        s
    } else if s.subrange(0, pat.len() as int) == pat {
        rep + replace_all(s.subrange(pat.len() as int, s.len() as int), pat, rep)
    } else {
        seq![s[0]] + replace_all(s.subrange(1, s.len() as int), pat, rep)
    }
}

/// The characters of `s`, one per element.
pub fn chars_of(s: &str) -> (v: Vec<char>)
    ensures
        v@ == s@,
{
    let mut v: Vec<char> = Vec::new();
    for c in it: s.chars()
        invariant
            v@ == it.seq().subrange(0, it.index() as int),
            it.seq() == s@,
    {
        v.push(c);
    }
    v
}

/// Whether `pat` occurs in `s` at position `at`.
fn occurs_at(s: &Vec<char>, at: usize, pat: &Vec<char>) -> (b: bool)
    requires
        at + pat@.len() <= s@.len(),
    ensures
        b == (s@.subrange(at as int, at + pat@.len()) == pat@),
{
    let limit = s.len();
    let mut j: usize = 0;
    while j < pat.len()
        invariant
            limit == s@.len(),
            at + pat@.len() <= s@.len(),
            j <= pat@.len(),
            forall|k: int| 0 <= k < j ==> s@[at + k] == pat@[k],
        decreases pat@.len() - j,
    {
        if s[at + j] != pat[j] {
            assert(s@.subrange(at as int, at + pat@.len())[j as int] != pat@[j as int]);
            return false;
        }
        j = j + 1;
    }
    assert(s@.subrange(at as int, at + pat@.len()) =~= pat@);
    true
}

/// Puts `rep` before each character of `s` and at its end.
fn insert_text(s: &str, rep: &str) -> (r: String)
    ensures
        r@ == insert_everywhere(s@, rep@),
{
    let n = s.unicode_len();
    let mut out = String::new();
    let mut i: usize = 0;
    assert(s@.subrange(0, n as int) =~= s@);
    assert(out@ + insert_everywhere(s@, rep@) =~= insert_everywhere(s@, rep@));
    while i < n
        invariant
            n == s@.len(),
            i <= n,
            out@ + insert_everywhere(s@.subrange(i as int, n as int), rep@) == insert_everywhere(
                s@,
                rep@,
            ),
        decreases n - i,
    {
        let ghost rest = s@.subrange(i as int, n as int);
        assert(rest.subrange(1, rest.len() as int) =~= s@.subrange(i + 1, n as int));
        let one = s.substring_char(i, i + 1);
        assert(one@ =~= seq![rest[0]]);
        let ghost before = out@;
        out.append(rep);
        out.append(one);
        assert(out@ + insert_everywhere(s@.subrange(i + 1, n as int), rep@) =~= before
            + insert_everywhere(rest, rep@));
        i = i + 1;
    }
    assert(s@.subrange(n as int, n as int) =~= Seq::<char>::empty());
    out.append(rep);
    out
}

/// Replaces every occurrence of `pat` in `s` by `rep`, scanning from the
/// left; an empty `pat` puts `rep` at every character boundary.
pub fn replace_text(s: &str, pat: &str, rep: &str) -> (r: String)
    ensures
        r@ == replace_all(s@, pat@, rep@),
{
    if pat.is_empty() {
        return insert_text(s, rep);
    }
    let chars = chars_of(s);
    let pchars = chars_of(pat);
    let n = chars.len();
    let m = pchars.len();
    let mut out = String::new();
    let mut i: usize = 0;
    assert(s@.subrange(0, n as int) =~= s@);
    assert(out@ + s@ =~= s@);
    while i < n
        invariant
            chars@ == s@,
            pchars@ == pat@,
            n == s@.len(),
            m == pat@.len(),
            m > 0,
            i <= n,
            out@ + replace_all(s@.subrange(i as int, n as int), pat@, rep@)
                == replace_all(s@, pat@, rep@),
        decreases n - i,
    {
        let ghost rest = s@.subrange(i as int, n as int);
        if m <= n - i && occurs_at(&chars, i, &pchars) {
            assert(rest.subrange(0, m as int) =~= s@.subrange(i as int, i + m));
            assert(rest.subrange(m as int, rest.len() as int) =~= s@.subrange(i + m, n as int));
            out.append(rep);
            i = i + m;
        } else {
            assert(rest.subrange(1, rest.len() as int) =~= s@.subrange(i + 1, n as int));
            if m <= n - i {
                assert(rest.subrange(0, m as int) =~= s@.subrange(i as int, i + m));
            } else {
                let ghost tail = s@.subrange(i + 1, n as int);
                assert(replace_all(tail, pat@, rep@) == tail);
                assert(rest =~= seq![rest[0]] + tail);
            }
            let one = s.substring_char(i, i + 1);
            assert(one@ =~= seq![rest[0]]);
            out.append(one);
            i = i + 1;
        }
    }
    assert(s@.subrange(n as int, n as int) =~= Seq::<char>::empty());
    assert(out@ + Seq::<char>::empty() =~= out@);
    out
}

} // verus!
