use vstd::prelude::*;

verus! {

/// A 32-byte account or program address.
#[derive(Debug, Clone, Copy)]
pub struct Identity {
    pub bytes: [u8; 32],
}

impl View for Identity {
    type V = Seq<u8>;

    open spec fn view(&self) -> Seq<u8> {
        self.bytes@
    }
}

impl Identity {
    pub fn new(bytes: [u8; 32]) -> (r: Identity)
        ensures
            r.bytes == bytes,
    {
        Identity { bytes }
    }

    /// Byte-wise equality of two addresses.
    pub fn equals(&self, other: &Identity) -> (r: bool)
        ensures
            r == (self@ == other@),
    {
        let mut i: usize = 0;
        while i < 32
            invariant
                0 <= i <= 32,
                self@.len() == 32,
                other@.len() == 32,
                forall|j: int| 0 <= j < i ==> self@[j] == other@[j],
            decreases 32 - i,
        {
            if self.bytes[i] != other.bytes[i] {
                return false;
            }
            i = i + 1;
        }
        assert(self@ =~= other@);
        true
    }

    /// Reads the 32 bytes starting at `offset`.
    pub fn from_slice(data: &Vec<u8>, offset: usize) -> (r: Identity)
        requires
            offset + 32 <= data@.len(),
        ensures
            r@ == data@.subrange(offset as int, offset + 32),
    {
        let n = data.len();
        let mut bytes = [0u8; 32];
        let mut i: usize = 0;
        while i < 32
            invariant
                0 <= i <= 32,
                offset + 32 <= data@.len(),
                n == data@.len(),
                bytes@.len() == 32,
                forall|j: int| 0 <= j < i ==> bytes@[j] == data@[offset + j],
            decreases 32 - i,
        {
            bytes[i] = data[offset + i];
            i = i + 1;
        }
        let r = Identity { bytes };
        assert(r@ =~= data@.subrange(offset as int, offset + 32));
        r
    }
}

} // verus!
