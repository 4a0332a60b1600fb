//! Small helpers on strings.

use vstd::prelude::*;

verus! {

/// Tells whether two string slices hold the same characters.
pub fn str_eq(a: &str, b: &str) -> (same: bool)
    ensures
        same == (a@ == b@),
{
    let left = String::from_str(a);
    let right = String::from_str(b);
    left == right
}

/// A copy of a string that may be missing.
pub fn clone_optional(s: &Option<String>) -> (r: Option<String>)
    ensures
        r == *s,
{
    match s {
        Some(s) => Some(s.clone()),
        None => None,
    }
}

/// The views of a sequence of strings, one for one.
pub open spec fn views(strings: Seq<String>) -> Seq<Seq<char>> {
    strings.map_values(|s: String| s@)
}

/// Whether `needle` occurs among `strings`, compared by characters.
pub open spec fn holds(strings: Seq<String>, needle: Seq<char>) -> bool {
    exists|i: int| 0 <= i < strings.len() && #[trigger] strings[i]@ == needle
}

/// Tells whether `needle` occurs among `strings`.
pub fn contains_str(strings: &Vec<String>, needle: &str) -> (found: bool)
    ensures
        found == holds(strings@, needle@),
{
    let mut i: usize = 0;
    while i < strings.len()
        invariant
            i <= strings.len(),
            forall|j: int| 0 <= j < i ==> #[trigger] strings[j]@ != needle@,
        decreases strings.len() - i,
    {
        if str_eq(strings[i].as_str(), needle) {
            return true;
        }
        i += 1;
    }
    false
}

} // verus!
