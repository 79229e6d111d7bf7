//! Transaction signature values.
//!
//! The engine never looks inside a signature: it records the one produced by
//! each task and hands the whole list back to the caller for forensic
//! lookups. A task that never built its transaction reports the zeroed
//! signature.

use vstd::prelude::*;

verus! {

/// Number of bytes in a transaction signature.
pub const SIGNATURE_BYTES: usize = 64;

/// An opaque transaction signature, carried through by value.
#[derive(Clone, Debug, PartialEq, Eq)]
pub struct Signature {
    /// The raw signature bytes.
    pub bytes: Vec<u8>,
}

impl View for Signature {
    type V = Seq<u8>;

    open spec fn view(&self) -> Seq<u8> {
        self.bytes@
    }
}

impl Signature {
    /// The all-zero signature value.
    pub open spec fn spec_zeroed() -> Seq<u8> {
        Seq::new(SIGNATURE_BYTES as nat, |i: int| 0u8)
    }

    /// The zeroed signature, reported when a transaction was never built.
    pub fn zeroed() -> (r: Self)
        ensures
            r@ == Self::spec_zeroed(),
    {
        let mut bytes: Vec<u8> = Vec::new();
        let mut i: usize = 0;
        while i < SIGNATURE_BYTES
            invariant
                i <= SIGNATURE_BYTES,
                bytes@.len() == i,
                forall|k: int| 0 <= k < i ==> bytes@[k] == 0u8,
            decreases SIGNATURE_BYTES - i,
        {
            bytes.push(0u8);
            i = i + 1;
        }
        proof {
            assert(bytes@ =~= Self::spec_zeroed());
        }
        Signature { bytes }
    }

    /// Constructs a signature from its raw bytes.
    pub fn from_bytes(bytes: Vec<u8>) -> (r: Self)
        ensures
            r@ == bytes@,
    {
        Signature { bytes }
    }
}

} // verus!
