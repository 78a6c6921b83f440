//! Spelling of paths.

use crate::text::chars_of;
use crate::text::string_of;
use vstd::prelude::*;

verus! {

/// A character of a path with the backslash turned into a slash.
pub open spec fn slashed(c: char) -> char {
    if c == '\\' {
        '/'
    } else {
        c
    }
}

/// The path with every backslash turned into a slash, so that it reads the
/// same on every platform.
pub fn normalize_path(path: &str) -> (normal: String)
    ensures
        normal@ == path@.map_values(|c: char| slashed(c)),
{
    let chars = chars_of(path);
    let mut turned: Vec<char> = Vec::new();
    let mut at: usize = 0;
    while at < chars.len()
        invariant
            at <= chars.len(),
            turned.len() == at,
            forall|k: int| 0 <= k < at ==> turned@[k] == slashed(chars@[k]),
        decreases chars.len() - at,
    {
        let c = chars[at];
        turned.push(if c == '\\' { '/' } else { c });
        at += 1;
    }
    string_of(&turned)
}

} // verus!
