//! Relative-path handling: table keys use forward slashes on every host, so a
//! path coming from a backslash-separated filesystem is normalized before it
//! is filtered or inserted.

use vstd::prelude::*;

verus! {

/// One file found by a directory scan: the path relative to the scanned root
/// (the table key, once normalized) and the canonical absolute path used only
/// to read the bytes back.
pub struct FileEntry {
    pub rel_path: String,
    pub full_canonical_path: String,
}

/// Relies on `String::push` from std: appends one character to the string.
pub assume_specification[ String::push ](s: &mut String, c: char)
    ensures
        final(s)@ == old(s)@.push(c),
;

/// A backslash turned into a forward slash; every other character unchanged.
pub open spec fn normalize_char(c: char) -> char {
    if c == '\\' {
        '/'
    } else {
        c
    }
}

/// The view of a path with every backslash separator turned into a forward
/// slash.
pub open spec fn normalize_seps(path: Seq<char>) -> Seq<char> {
    path.map_values(|c: char| normalize_char(c))
}

/// Turns every backslash in `path` into a forward slash, so that table keys
/// read the same on every host platform.
pub fn normalize_separators(path: &str) -> (r: String)
    ensures
        r@ == normalize_seps(path@),
{
    let n = path.unicode_len();
    let mut out = String::new();
    let mut i: usize = 0;
    while i < n
        invariant
            n == path@.len(),
            0 <= i <= n,
            out@ == normalize_seps(path@.subrange(0, i as int)),
        decreases n - i,
    {
        let c = path.get_char(i);
        if c == '\\' {
            out.push('/');
        } else {
            out.push(c);
        }
        proof {
            assert(path@.subrange(0, i + 1) == path@.subrange(0, i as int).push(path@[i as int]));
            assert(out@ =~= normalize_seps(path@.subrange(0, i + 1)));
        }
        i += 1;
    }
    proof {
        assert(path@.subrange(0, n as int) == path@);
    }
    out
}

/// A normalized path holds no backslash: the separators of every table key
/// are forward slashes, whatever the host platform wrote.
pub proof fn lemma_normalized_has_no_backslash(path: Seq<char>)
    ensures
        forall|i: int| 0 <= i < normalize_seps(path).len() ==> normalize_seps(path)[i] != '\\',
{
}

/// Character-exact string equality, the comparison the table lookup uses:
/// case-sensitive, with no normalization at lookup time.
pub fn str_eq(a: &str, b: &str) -> (r: bool)
    ensures
        r == (a@ == b@),
{
    let na = a.unicode_len();
    let nb = b.unicode_len();
    if na != nb {
        return false;
    }
    let mut i: usize = 0;
    while i < na
        invariant
            na == a@.len(),
            na == b@.len(),
            0 <= i <= na,
            forall|j: int| 0 <= j < i ==> a@[j] == b@[j],
        decreases na - i,
    {
        if a.get_char(i) != b.get_char(i) {
            return false;
        }
        i += 1;
    }
    proof {
        assert(a@ =~= b@);
    }
    true
}

} // verus!
