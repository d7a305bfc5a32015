//! Identity material exchanged during the handshake: asymmetric public keys
//! and one-way digests, both carried as fixed-size byte strings whose
//! algebra lives outside this core.

use crate::foreign::{sha256_digest, sha256_of};
use crate::invite::{clone_bytes, eq_bytes};
use vstd::prelude::*;

verus! {

/// Number of bytes in a public key.
pub const PUBLIC_KEY_BYTES: usize = 32;

/// Number of bytes in a digest.
pub const HASH_DIGEST_BYTES: usize = 32;

/// One side's asymmetric public key, opaque to this core.
#[derive(Debug, Clone, PartialEq, Eq)]
pub struct PublicKey {
    bytes: Vec<u8>,
}

impl View for PublicKey {
    type V = Seq<u8>;

    closed spec fn view(&self) -> Seq<u8> {
        self.bytes@
    }
}

impl PublicKey {
    pub open spec fn wf(&self) -> bool {
        self@.len() == PUBLIC_KEY_BYTES
    }

    /// Accepts exactly 32 bytes as a public key.
    pub fn from_bytes(bytes: Vec<u8>) -> (r: Option<PublicKey>)
        ensures
            match r {
                Some(k) => k@ == bytes@ && k.wf(),
                None => bytes@.len() != PUBLIC_KEY_BYTES,
            },
    {
        if bytes.len() == PUBLIC_KEY_BYTES {
            Some(PublicKey { bytes })
        } else {
            None
        }
    }

    /// The key's raw bytes.
    pub fn as_bytes(&self) -> (r: &Vec<u8>)
        ensures
            r@ == self@,
    {
        &self.bytes
    }

    /// A copy of this key.
    pub fn duplicate(&self) -> (r: PublicKey)
        ensures
            r@ == self@,
    {
        PublicKey { bytes: clone_bytes(&self.bytes) }
    }

    /// Whether two keys are the same bytes.
    pub fn matches(&self, other: &PublicKey) -> (r: bool)
        ensures
            r == (self@ == other@),
    {
        eq_bytes(&self.bytes, &other.bytes)
    }
}

/// A one-way digest, used as the claimer's nonce commitment.
#[derive(Debug, Clone, PartialEq, Eq)]
pub struct HashDigest {
    bytes: Vec<u8>,
}

impl View for HashDigest {
    type V = Seq<u8>;

    closed spec fn view(&self) -> Seq<u8> {
        self.bytes@
    }
}

impl HashDigest {
    pub open spec fn wf(&self) -> bool {
        self@.len() == HASH_DIGEST_BYTES
    }

    /// Digests arbitrary data with SHA-256.
    pub fn from_data(data: &Vec<u8>) -> (r: HashDigest)
        ensures
            r@ == sha256_of(data@),
            r.wf(),
    {
        HashDigest { bytes: sha256_digest(data) }
    }

    /// Accepts exactly 32 bytes as a digest.
    pub fn from_bytes(bytes: Vec<u8>) -> (r: Option<HashDigest>)
        ensures
            match r {
                Some(d) => d@ == bytes@ && d.wf(),
                None => bytes@.len() != HASH_DIGEST_BYTES,
            },
    {
        if bytes.len() == HASH_DIGEST_BYTES {
            Some(HashDigest { bytes })
        } else {
            None
        }
    }

    /// The digest's raw bytes.
    pub fn as_bytes(&self) -> (r: &Vec<u8>)
        ensures
            r@ == self@,
    {
        &self.bytes
    }

    /// A copy of this digest.
    pub fn duplicate(&self) -> (r: HashDigest)
        ensures
            r@ == self@,
    {
        HashDigest { bytes: clone_bytes(&self.bytes) }
    }

    /// Whether two digests are the same bytes.
    pub fn matches(&self, other: &HashDigest) -> (r: bool)
        ensures
            r == (self@ == other@),
    {
        eq_bytes(&self.bytes, &other.bytes)
    }
}

} // verus!
