//! Text checks for values that cross into the native library.
//!
//! The native library receives strings as C strings, which cannot carry an
//! interior NUL character; handing one to the underlying binding aborts the
//! process. Callers of the trusted boundary screen for NUL in verified code
//! and either answer without the native call or exclude the input.

use vstd::prelude::*;
use vstd::string::*;

verus! {

/// True when the text holds a NUL character, which no C string can carry.
pub open spec fn has_nul_char(s: Seq<char>) -> bool {
    exists|j: int| 0 <= j < s.len() && s[j] == '\0'
}

/// Scan a text for a NUL character.
pub fn contains_nul_char(s: &str) -> (b: bool)
    ensures
        b == has_nul_char(s@),
{
    let n = s.unicode_len();
    let mut i: usize = 0;
    while i < n
        invariant
            n == s@.len(),
            0 <= i <= n,
            forall|j: int| 0 <= j < i ==> s@[j] != '\0',
        decreases n - i,
    {
        let c = s.get_char(i);
        if c == '\0' {
            return true;
        }
        i += 1;
    }
    false
}

} // verus!
