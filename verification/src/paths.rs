//! Paths held as text, joined as on Unix-like systems

use vstd::prelude::*;

use crate::text::{chars_of, owned, string_push, string_push_str};

verus! {

/// The path `part` joined onto `base`: an absolute `part` replaces `base`; otherwise a
/// separator is put between them where `base` does not already end with one.
pub open spec fn spec_join(base: Seq<char>, part: Seq<char>) -> Seq<char> {
    if part.len() > 0 && part[0] == '/' {
        part
    } else if base.len() > 0 && base.last() != '/' {
        base + seq!['/'] + part
    } else {
        base + part
    }
}

/// Joins a path component onto a path
pub fn join_path(base: &str, part: &str) -> (r: String)
    ensures
        r@ == spec_join(base@, part@),
{
    let pc = chars_of(part);
    if pc.len() > 0 && pc[0] == '/' {
        return owned(part);
    }
    let bc = chars_of(base);
    let mut out = owned(base);
    if bc.len() > 0 && bc[bc.len() - 1] != '/' {
        string_push(&mut out, '/');
    }
    string_push_str(&mut out, part);
    out
}

} // verus!
