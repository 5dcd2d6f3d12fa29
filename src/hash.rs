use vstd::prelude::*;

verus! {

/// Length in bytes of a digest.
pub const HASH_BYTES: usize = 32;

/// A 32-byte digest.
#[derive(Debug, Clone, Copy)]
pub struct Hash(pub [u8; HASH_BYTES]);

impl View for Hash {
    type V = Seq<u8>;

    open spec fn view(&self) -> Seq<u8> {
        self.0@
    }
}

impl PartialEq for Hash {
    fn eq(&self, other: &Hash) -> (r: bool)
        ensures
            r == (self@ == other@),
    {
        let mut i: usize = 0;
        while i < HASH_BYTES
            invariant
                i <= HASH_BYTES,
                forall|j: int| 0 <= j < i ==> self@[j] == other@[j],
            decreases HASH_BYTES - i,
        {
            if self.0[i] != other.0[i] {
                return false;
            }
            i = i + 1;
        }
        assert(self@ =~= other@);
        true
    }
}

impl vstd::std_specs::cmp::PartialEqSpecImpl for Hash {
    open spec fn obeys_eq_spec() -> bool {
        true
    }

    open spec fn eq_spec(&self, other: &Hash) -> bool {
        self@ == other@
    }
}

impl Eq for Hash {
}

impl Hash {
    pub fn new_from_array(hash_array: [u8; HASH_BYTES]) -> (r: Hash)
        ensures
            r.0 == hash_array,
    {
        Hash(hash_array)
    }

    pub fn to_bytes(self) -> (r: [u8; HASH_BYTES])
        ensures
            r == self.0,
    {
        self.0
    }
}

} // verus!
