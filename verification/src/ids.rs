//! Account identities and helpers over sequences of identities.

use vstd::prelude::*;

verus! {

/// A 32-byte account identity, held as four 64-bit words (least significant
/// word first, each word little-endian when serialized).
#[derive(Clone, Copy, PartialEq, Eq, Structural, Debug)]
pub struct AccountId {
    pub w0: u64,
    pub w1: u64,
    pub w2: u64,
    pub w3: u64,
}

/// No identity occurs twice in `s`.
pub open spec fn distinct_ids(s: Seq<AccountId>) -> bool {
    forall|i: int, j: int| 0 <= i < j < s.len() ==> s[i] != s[j]
}

/// Every identity of `s` is also one of `t`.
pub open spec fn ids_within(s: Seq<AccountId>, t: Seq<AccountId>) -> bool {
    forall|i: int| 0 <= i < s.len() ==> t.contains(s[i])
}

/// Linear membership test, the executable side of `Seq::contains`.
pub fn contains_id(s: &Vec<AccountId>, x: AccountId) -> (r: bool)
    ensures
        r == s@.contains(x),
{
    let mut i: usize = 0;
    while i < s.len()
        invariant
            0 <= i <= s@.len(),
            forall|j: int| 0 <= j < i ==> s@[j] != x,
        decreases s@.len() - i,
    {
        if s[i] == x {
            return true;
        }
        i = i + 1;
    }
    false
}

} // verus!
