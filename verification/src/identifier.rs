use vstd::prelude::*;

verus! {

/// A 32-byte platform identifier (of an identity, a document or a data contract).
#[derive(Clone, Copy, Debug, PartialEq, Eq)]
pub struct Identifier {
    pub bytes: [u8; 32],
}

impl Identifier {
    /// Wraps 32 bytes as an identifier.
    pub fn new(bytes: [u8; 32]) -> (r: Identifier)
        ensures
            r.bytes == bytes,
    {
        Identifier { bytes }
    }

    /// The identifier's bytes, in order, as a vector.
    pub fn to_vec(&self) -> (r: Vec<u8>)
        ensures
            r@ == self.bytes@,
    {
        let mut r: Vec<u8> = Vec::new();
        let mut i: usize = 0;
        while i < 32
            invariant
                i <= 32,
                r@ == self.bytes@.subrange(0, i as int),
            decreases 32 - i,
        {
            r.push(self.bytes[i]);
            i = i + 1;
            assert(r@ =~= self.bytes@.subrange(0, i as int));
        }
        assert(self.bytes@.subrange(0, 32) =~= self.bytes@);
        r
    }
}

} // verus!
