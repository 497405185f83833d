//! Fixed-size fingerprints that identify payloads, blocks and transactions.
//!
//! All three kinds are 32-byte digests. They are kept as distinct types so
//! that a fingerprint of one kind cannot be used where another is expected.
//! Two fingerprints are equal exactly when their bytes are.

use vstd::prelude::*;
use vstd::std_specs::cmp::PartialEqSpecImpl;

verus! {

/// Compares two digests byte by byte.
pub fn digest_eq(a: &[u8; 32], b: &[u8; 32]) -> (same: bool)
    ensures
        same == (*a == *b),
{
    let mut i: usize = 0;
    while i < 32
        invariant
            i <= 32,
            forall|j: int| 0 <= j < i ==> a[j] == b[j],
        decreases 32 - i,
    {
        if a[i] != b[i] {
            return false;
        }
        i += 1;
    }
    assert(*a =~= *b);
    true
}

/// Fingerprint of a block payload's bytes under the erasure code in use.
/// Together with a view number it names the parent a builder state extends.
#[derive(Clone, Copy, Debug, Hash)]
pub struct VidCommitment {
    pub bytes: [u8; 32],
}

/// Fingerprint of a payload together with its metadata: the handle by which
/// consensus claims a block.
#[derive(Clone, Copy, Debug, Hash)]
pub struct BuilderCommitment {
    pub bytes: [u8; 32],
}

/// Content address of a transaction.
#[derive(Clone, Copy, Debug, Hash)]
pub struct TxCommitment {
    pub bytes: [u8; 32],
}

impl VidCommitment {
    pub fn from_bytes(bytes: [u8; 32]) -> (c: Self)
        ensures
            c.bytes == bytes,
    {
        VidCommitment { bytes }
    }

    pub fn as_bytes(&self) -> (b: &[u8; 32])
        ensures
            *b == self.bytes,
    {
        &self.bytes
    }
}

impl BuilderCommitment {
    pub fn from_bytes(bytes: [u8; 32]) -> (c: Self)
        ensures
            c.bytes == bytes,
    {
        BuilderCommitment { bytes }
    }

    pub fn as_bytes(&self) -> (b: &[u8; 32])
        ensures
            *b == self.bytes,
    {
        &self.bytes
    }
}

impl TxCommitment {
    pub fn from_bytes(bytes: [u8; 32]) -> (c: Self)
        ensures
            c.bytes == bytes,
    {
        TxCommitment { bytes }
    }

    pub fn as_bytes(&self) -> (b: &[u8; 32])
        ensures
            *b == self.bytes,
    {
        &self.bytes
    }
}

impl PartialEq for VidCommitment {
    fn eq(&self, other: &Self) -> (same: bool) {
        digest_eq(&self.bytes, &other.bytes)
    }
}

impl PartialEqSpecImpl for VidCommitment {
    open spec fn obeys_eq_spec() -> bool {
        true
    }

    open spec fn eq_spec(&self, other: &Self) -> bool {
        *self == *other
    }
}

impl Eq for VidCommitment {

}

impl PartialEq for BuilderCommitment {
    fn eq(&self, other: &Self) -> (same: bool) {
        digest_eq(&self.bytes, &other.bytes)
    }
}

impl PartialEqSpecImpl for BuilderCommitment {
    open spec fn obeys_eq_spec() -> bool {
        true
    }

    open spec fn eq_spec(&self, other: &Self) -> bool {
        *self == *other
    }
}

impl Eq for BuilderCommitment {

}

impl PartialEq for TxCommitment {
    fn eq(&self, other: &Self) -> (same: bool) {
        digest_eq(&self.bytes, &other.bytes)
    }
}

impl PartialEqSpecImpl for TxCommitment {
    open spec fn obeys_eq_spec() -> bool {
        true
    }

    open spec fn eq_spec(&self, other: &Self) -> bool {
        *self == *other
    }
}

impl Eq for TxCommitment {

}

} // verus!
