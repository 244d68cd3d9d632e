//! Account identities. The hosting ledger addresses accounts by 32-byte
//! keys; the core only ever reads two things from a key: whether it is the
//! all-zero (null) key, and how two keys order lexicographically.

use vstd::prelude::*;

verus! {

/// A 32-byte account identity.
#[derive(Clone, Copy, Debug, PartialEq, Eq)]
pub struct Pubkey {
    pub bytes: [u8; 32],
}

/// Strict lexicographic order on equal-length byte sequences: `a` is below
/// `b` iff at the first differing position `a` holds the smaller byte.
pub open spec fn lex_lt(a: Seq<u8>, b: Seq<u8>) -> bool
    recommends
        a.len() == b.len(),
{
    exists|i: int|
        0 <= i < a.len() && i < b.len() && a[i] < b[i] && (forall|j: int|
            0 <= j < i ==> a[j] == b[j])
}

impl Pubkey {
    /// The all-zero key, used as the null identity.
    pub open spec fn is_zero(self) -> bool {
        forall|i: int| 0 <= i < 32 ==> self.bytes[i] == 0
    }

    pub fn new(bytes: [u8; 32]) -> (r: Pubkey)
        ensures
            r.bytes == bytes,
    {
        Pubkey { bytes }
    }

    /// Whether this is the null (all-zero) identity.
    pub fn is_default(&self) -> (r: bool)
        ensures
            r == self.is_zero(),
    {
        let mut i: usize = 0;
        while i < 32
            invariant
                0 <= i <= 32,
                forall|j: int| 0 <= j < i ==> self.bytes[j] == 0,
            decreases 32 - i,
        {
            if self.bytes[i] != 0 {
                return false;
            }
            i = i + 1;
        }
        true
    }

    /// Whether `self` orders strictly below `other` lexicographically.
    pub fn lt(&self, other: &Pubkey) -> (r: bool)
        ensures
            r == lex_lt(self.bytes@, other.bytes@),
    {
        let mut i: usize = 0;
        while i < 32
            invariant
                0 <= i <= 32,
                forall|j: int| 0 <= j < i ==> self.bytes[j] == other.bytes[j],
            decreases 32 - i,
        {
            if self.bytes[i] < other.bytes[i] {
                return true;
            }
            if self.bytes[i] > other.bytes[i] {
                proof {
                    assert forall|k: int|
                        0 <= k < 32 && self.bytes@[k] < other.bytes@[k] implies !(forall|j: int|
                        0 <= j < k ==> self.bytes@[j] == other.bytes@[j]) by {
                        assert(k > i);
                        assert(!(self.bytes@[i as int] == other.bytes@[i as int]));
                    }
                }
                return false;
            }
            i = i + 1;
        }
        proof {
            assert forall|k: int|
                0 <= k < 32 implies !(self.bytes@[k] < other.bytes@[k]) by {
                assert(self.bytes@[k] == other.bytes@[k]);
            }
        }
        false
    }
}

impl Default for Pubkey {
    /// The null identity.
    fn default() -> (r: Self)
        ensures
            r.is_zero(),
    {
        Pubkey { bytes: [0u8; 32] }
    }
}

} // verus!
