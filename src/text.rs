use vstd::prelude::*;
use vstd::std_specs::iter::IteratorSpec;

verus! {

broadcast use vstd::string::axiom_spec_iter;

/// The character that terminates a string on the foreign side.
pub const NUL_CHAR: char = '\0';

/// Whether `s` holds the terminator character anywhere.
pub fn has_nul_char(s: &str) -> (r: bool)
    ensures
        r == s@.contains(NUL_CHAR),
{
    let mut found = false;
    for c in it: s.chars()
        invariant
            it.seq() == s@,
            found == (exists|i: int| 0 <= i < it.index() && s@[i] == NUL_CHAR),
    {
        if c == NUL_CHAR {
            found = true;
        }
    }
    found
}

/// Whether `b` holds a zero byte anywhere.
pub fn has_nul_byte(b: &Vec<u8>) -> (r: bool)
    ensures
        r == b@.contains(0u8),
{
    let mut i: usize = 0;
    while i < b.len()
        invariant
            i <= b.len(),
            forall|j: int| 0 <= j < i ==> b@[j] != 0u8,
        decreases b.len() - i,
    {
        if b[i] == 0u8 {
            return true;
        }
        i = i + 1;
    }
    false
}

} // verus!
