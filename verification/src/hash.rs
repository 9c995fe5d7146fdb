use vstd::prelude::*;

verus! {

/// Whether a byte sequence has the length of a 256-bit hash.
pub open spec fn is_hash_bytes(s: Seq<u8>) -> bool {
    s.len() == 32
}

/// A 256-bit hash, held as the 32 bytes that make it up.
#[derive(Clone, Copy, Debug, PartialEq, Eq)]
pub struct H256(pub [u8; 32]);

impl View for H256 {
    type V = Seq<u8>;

    open spec fn view(&self) -> Seq<u8> {
        self.0@
    }
}

impl H256 {
    /// Builds a hash out of a slice of exactly 32 bytes.
    pub fn from_slice(src: &[u8]) -> (res: H256)
        requires
            is_hash_bytes(src@),
        ensures
            res@ == src@,
    {
        let mut bytes: [u8; 32] = [0u8; 32];
        let mut i: usize = 0;
        while i < 32
            invariant
                i <= 32,
                src@.len() == 32,
                forall|j: int| 0 <= j < i ==> bytes@[j] == src@[j],
            decreases 32 - i,
        {
            bytes[i] = src[i];
            i = i + 1;
        }
        assert(bytes@ =~= src@);
        H256(bytes)
    }

    /// The 32 bytes of the hash, in a vector of their own.
    pub fn to_vec(&self) -> (res: Vec<u8>)
        ensures
            res@ == self@,
    {
        let mut res: Vec<u8> = Vec::new();
        let mut i: usize = 0;
        while i < 32
            invariant
                i <= 32,
                res@.len() == i,
                forall|j: int| 0 <= j < i ==> res@[j] == self@[j],
            decreases 32 - i,
        {
            res.push(self.0[i]);
            i = i + 1;
        }
        assert(res@ =~= self@);
        res
    }
}

} // verus!
