use vstd::bytes::{spec_u64_from_le_bytes, spec_u64_to_le_bytes, u64_from_le_bytes};
use vstd::prelude::*;
use vstd::slice::slice_subrange;

verus! {

/// A 32-byte on-ledger identity — a public key or a program-derived address —
/// held as four little-endian 64-bit words.
#[derive(Clone, Copy, Debug, PartialEq, Eq, Structural, Hash)]
pub struct Identity {
    pub w0: u64,
    pub w1: u64,
    pub w2: u64,
    pub w3: u64,
}

/// The identity whose 32 bytes are all zero; it marks an unset field,
/// such as a configuration with no pending admin.
pub open spec fn spec_zero_identity() -> Identity {
    Identity { w0: 0, w1: 0, w2: 0, w3: 0 }
}

impl Identity {
    /// The 32-byte little-endian encoding of this identity.
    pub open spec fn spec_bytes(self) -> Seq<u8> {
        spec_u64_to_le_bytes(self.w0) + spec_u64_to_le_bytes(self.w1)
            + spec_u64_to_le_bytes(self.w2) + spec_u64_to_le_bytes(self.w3)
    }

    pub fn zero() -> (r: Identity)
        ensures
            r == spec_zero_identity(),
    {
        Identity { w0: 0, w1: 0, w2: 0, w3: 0 }
    }

    /// Writes out the 32-byte encoding of this identity.
    pub fn to_bytes(&self) -> (r: Vec<u8>)
        ensures
            r@ == self.spec_bytes(),
            r@.len() == 32,
    {
        proof {
            vstd::bytes::lemma_auto_spec_u64_to_from_le_bytes();
        }
        let mut r = vstd::bytes::u64_to_le_bytes(self.w0);
        let mut r1 = vstd::bytes::u64_to_le_bytes(self.w1);
        let mut r2 = vstd::bytes::u64_to_le_bytes(self.w2);
        let mut r3 = vstd::bytes::u64_to_le_bytes(self.w3);
        r.append(&mut r1);
        r.append(&mut r2);
        r.append(&mut r3);
        r
    }

    /// Reads an identity back from its 32-byte encoding.
    pub fn from_bytes(bytes: &[u8]) -> (r: Identity)
        requires
            bytes@.len() == 32,
        ensures
            r.w0 == spec_u64_from_le_bytes(bytes@.subrange(0, 8)),
            r.w1 == spec_u64_from_le_bytes(bytes@.subrange(8, 16)),
            r.w2 == spec_u64_from_le_bytes(bytes@.subrange(16, 24)),
            r.w3 == spec_u64_from_le_bytes(bytes@.subrange(24, 32)),
    {
        Identity {
            w0: u64_from_le_bytes(slice_subrange(bytes, 0, 8)),
            w1: u64_from_le_bytes(slice_subrange(bytes, 8, 16)),
            w2: u64_from_le_bytes(slice_subrange(bytes, 16, 24)),
            w3: u64_from_le_bytes(slice_subrange(bytes, 24, 32)),
        }
    }
}

} // verus!
