//! Bundle-construction core of a lightweight, rootless container runtime.
//!
//! Given a container configuration and a resolved image, the library
//! computes everything an OCI runtime bundle needs: the directory layout,
//! the ordered mount table, the namespace set, the single-entry UID/GID
//! mappings, and the merged process command line and environment.  All of
//! it is pure computation over plain values; the surrounding binary
//! performs the filesystem writes and the actual image resolution.
use vstd::prelude::*;
use vstd::string::StrSliceExecFns;
use vstd::string::StringExecFns;

pub mod model;
pub mod dirs;
pub mod manager;
pub mod identity;
pub mod mounts;
pub mod merge;
pub mod bundle;
pub mod generator;

verus! {

/// The directory inside the container where helper scripts and the runtime
/// binary are made visible; the process environment's `PATH` includes it.
pub const BIN_DIR: &'static str = "/usr/bin/doe";

/// Name under which the runtime binary is published inside the bundle's
/// `bin/` directory.
pub const SELF_BINARY: &'static str = "doe";

/// `base` with `sub` appended as one more path component.
pub open spec fn spec_path_join(base: Seq<char>, sub: Seq<char>) -> Seq<char> {
    base + "/"@ + sub
}

/// Appends `sub` to `base` as one more path component.
pub fn path_join(base: &str, sub: &str) -> (r: String)
    ensures
        r@ == spec_path_join(base@, sub@),
{
    let mut r = base.to_owned();
    r.append("/");
    r.append(sub);
    r
}

/// Character-wise string equality.
pub fn str_eq(a: &str, b: &str) -> (r: bool)
    ensures
        r == (a@ == b@),
{
    let na = a.unicode_len();
    let nb = b.unicode_len();
    if na != nb {
        return false;
    }
    let mut j: usize = 0;
    while j < na
        invariant
            na == a@.len(),
            na == b@.len(),
            j <= na,
            forall|k: int| 0 <= k < j ==> a@[k] == b@[k],
        decreases na - j,
    {
        if a.get_char(j) != b.get_char(j) {
            return false;
        }
        j = j + 1;
    }
    proof {
        assert(a@ =~= b@);
    }
    true
}

/// Index of the first occurrence of `c` in `s`, or `s.len()` when `s` does
/// not contain `c`.
pub open spec fn spec_index_of(s: Seq<char>, c: char) -> int
    decreases s.len(),
{
    if s.len() == 0 {
        0
    } else if s[0] == c {
        0
    } else {
        1 + spec_index_of(s.drop_first(), c)
    }
}

/// `s` does not contain `c`.
pub open spec fn has_no(s: Seq<char>, c: char) -> bool {
    forall|j: int| 0 <= j < s.len() ==> s[j] != c
}

/// What [`spec_index_of`] returns: the position of the first occurrence,
/// or the length when there is none.
pub proof fn lemma_index_of(s: Seq<char>, c: char)
    ensures
        0 <= spec_index_of(s, c) <= s.len(),
        spec_index_of(s, c) < s.len() ==> s[spec_index_of(s, c)] == c,
        forall|j: int| 0 <= j < spec_index_of(s, c) ==> s[j] != c,
        spec_index_of(s, c) == s.len() <==> has_no(s, c),
    decreases s.len(),
{
    if s.len() == 0 {
    } else if s[0] == c {
    } else {
        lemma_index_of(s.drop_first(), c);
        let i = spec_index_of(s, c);
        assert forall|j: int| 0 <= j < i implies s[j] != c by {
            if j > 0 {
                assert(s.drop_first()[j - 1] != c);
            }
        }
        if i == s.len() {
            assert forall|j: int| 0 <= j < s.len() implies s[j] != c by {
                if j > 0 {
                    assert(s.drop_first()[j - 1] != c);
                }
            }
        }
        if i < s.len() {
            assert(s[i] == s.drop_first()[i - 1]);
        }
    }
}

/// Finds the first occurrence of `c` in `s`, counting characters;
/// returns the character count of `s` when `c` does not occur.
pub fn find_char(s: &str, c: char) -> (r: usize)
    ensures
        r == spec_index_of(s@, c),
{
    proof {
        lemma_index_of(s@, c);
    }
    let n = s.unicode_len();
    let mut j: usize = 0;
    while j < n
        invariant
            n == s@.len(),
            j <= n,
            forall|k: int| 0 <= k < j ==> s@[k] != c,
        decreases n - j,
    {
        if s.get_char(j) == c {
            proof {
                lemma_index_of(s@, c);
            }
            return j;
        }
        j = j + 1;
    }
    proof {
        lemma_index_of(s@, c);
    }
    j
}

} // verus!
