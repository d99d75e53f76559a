//! Field validation: pure predicates deciding whether a string is acceptable
//! as a generic free-text value or as a namespace-safe key component.

use vstd::prelude::*;
use vstd::string::*;

verus! {

/// A free-text field (secret, progress marker, device name) is acceptable
/// exactly when it is non-empty.
pub open spec fn valid_field(s: Seq<char>) -> bool {
    s.len() > 0
}

/// A key field (username, document identifier) is acceptable exactly when it
/// is non-empty and free of the namespace separator `':'`. The separator is
/// reserved for key structure: allowing it would let a crafted identifier
/// alias another user's keyspace.
pub open spec fn valid_key_field(s: Seq<char>) -> bool {
    &&& s.len() > 0
    &&& forall|i: int| 0 <= i < s.len() ==> #[trigger] s[i] != ':'
}

/// Decides [`valid_field`]: true iff the string is non-empty.
pub fn is_valid_field(field: &str) -> (r: bool)
    ensures
        r == valid_field(field@),
{
    !field.is_empty()
}

/// Decides [`valid_key_field`]: true iff the string is non-empty and contains
/// no namespace separator.
pub fn is_valid_key_field(field: &str) -> (r: bool)
    ensures
        r == valid_key_field(field@),
{
    let n = field.unicode_len();
    if n == 0 {
        return false;
    }
    let mut i: usize = 0;
    while i < n
        invariant
            n == field@.len(),
            0 < n,
            i <= n,
            forall|k: int| 0 <= k < i ==> #[trigger] field@[k] != ':',
        decreases n - i,
    {
        if field.get_char(i) == ':' {
            return false;
        }
        i += 1;
    }
    true
}

/// A string holding the namespace separator anywhere is never a valid key
/// field, so every operation that derives a store key from it rejects the
/// input before the store is reached.
pub proof fn lemma_separator_never_valid(s: Seq<char>, i: int)
    requires
        0 <= i < s.len(),
        s[i] == ':',
    ensures
        !valid_key_field(s),
{
}

} // verus!
