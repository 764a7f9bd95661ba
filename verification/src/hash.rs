//! 32-byte commitment values.
//!
//! A `Hash32` stands in for a secret (a player identity, a role, a
//! vote target, a proof, a nullifier) without revealing it. The game
//! rules only ever compare commitments for equality and test for the
//! reserved all-zero sentinel, which marks "no vote cast".

use vstd::prelude::*;

verus! {

broadcast use vstd::array::group_array_axioms;

/// A 32-byte commitment value.
#[derive(Clone, Copy, Debug)]
pub struct Hash32 {
    pub bytes: [u8; 32],
}

impl Hash32 {
    /// True iff every byte is zero: the reserved "no vote" sentinel.
    pub open spec fn spec_is_zero(self) -> bool {
        forall|i: int| 0 <= i < 32 ==> self.bytes[i] == 0
    }

    /// The all-zero sentinel as a value.
    pub open spec fn spec_zero() -> Hash32 {
        Hash32 { bytes: vstd::array::spec_array_fill_for_copy_type::<u8, 32>(0u8) }
    }

    /// The sentinel is the one value all of whose bytes are zero.
    pub proof fn lemma_zero_unique(self)
        ensures
            self.spec_is_zero() <==> self == Hash32::spec_zero(),
    {
        if self.spec_is_zero() {
            assert(self.bytes =~= Hash32::spec_zero().bytes);
        }
    }

    /// Builds a commitment from its 32 raw bytes.
    pub fn new(bytes: [u8; 32]) -> (h: Hash32)
        ensures
            h.bytes == bytes,
    {
        Hash32 { bytes }
    }

    /// The all-zero sentinel value.
    pub fn zero() -> (h: Hash32)
        ensures
            h == Hash32::spec_zero(),
            h.spec_is_zero(),
    {
        let h = Hash32 { bytes: [0u8; 32] };
        proof {
            h.lemma_zero_unique();
        }
        h
    }

    /// Tests for the all-zero sentinel.
    pub fn is_zero(&self) -> (r: bool)
        ensures
            r == self.spec_is_zero(),
            r == (*self == Hash32::spec_zero()),
    {
        proof {
            self.lemma_zero_unique();
        }
        let mut i: usize = 0;
        while i < 32
            invariant
                i <= 32,
                forall|j: int| 0 <= j < i ==> self.bytes[j] == 0,
            decreases 32 - i,
        {
            if self.bytes[i] != 0 {
                return false;
            }
            i += 1;
        }
        true
    }
}

impl PartialEq for Hash32 {
    /// Byte-wise comparison; agrees with mathematical equality.
    fn eq(&self, other: &Hash32) -> (r: bool) {
        let mut i: usize = 0;
        while i < 32
            invariant
                i <= 32,
                forall|j: int| 0 <= j < i ==> self.bytes[j] == other.bytes[j],
            decreases 32 - i,
        {
            if self.bytes[i] != other.bytes[i] {
                return false;
            }
            i += 1;
        }
        proof {
            assert(self.bytes =~= other.bytes);
        }
        true
    }
}

impl Eq for Hash32 {
}

impl vstd::std_specs::cmp::PartialEqSpecImpl for Hash32 {
    open spec fn obeys_eq_spec() -> bool {
        true
    }

    open spec fn eq_spec(&self, other: &Hash32) -> bool {
        *self == *other
    }
}

} // verus!
