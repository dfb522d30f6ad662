//! Joining file-system paths held as text.

use vstd::prelude::*;
use crate::text::{chars_of, string_of, append_chars};

verus! {

/// `Path::join` on Unix for paths held as text: an absolute component
/// replaces the base; otherwise a `/` is inserted when the base is non-empty
/// and does not already end with one.
pub open spec fn path_join(base: Seq<char>, comp: Seq<char>) -> Seq<char> {
    if comp.len() > 0 && comp[0] == '/' {
        comp
    } else if base.len() > 0 && base.last() != '/' {
        base + seq!['/'] + comp
    } else {
        base + comp
    }
}

/// Joins `comp` onto `base` as `Path::join` does on Unix.
pub fn join_path(base: &str, comp: &str) -> (p: String)
    ensures
        p@ == path_join(base@, comp@),
{
    let b = chars_of(base);
    let c = chars_of(comp);
    if c.len() > 0 && c[0] == '/' {
        return string_of(&c);
    }
    let mut r = b;
    if r.len() > 0 && r[r.len() - 1] != '/' {
        r.push('/');
    }
    append_chars(&mut r, &c);
    string_of(&r)
}

} // verus!
