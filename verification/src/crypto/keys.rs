//! Keys and signatures as the protocol holds them: byte strings of fixed
//! length, in the encodings of the crate `secp256k1`.

use vstd::prelude::*;
use crate::bytes::bytes_eq;
use crate::crypto::secp::{derive_public_key, is_point, point_valid, public_key_of};

verus! {

/// A public key: a point of the curve in its compressed encoding.
#[derive(Clone, Copy, Debug, PartialEq, Eq)]
pub struct PublicKey {
    pub bytes: [u8; 33],
}

/// A public key of a Schnorr signer: the x coordinate of a point whose y
/// coordinate is even.
#[derive(Clone, Copy, Debug, PartialEq, Eq)]
pub struct XOnlyPublicKey {
    pub bytes: [u8; 32],
}

/// A secret key: a scalar of the curve, not zero. A secret key has one owner:
/// it is neither copied nor printed, and its bytes are overwritten when it is
/// dropped.
#[derive(PartialEq, Eq)]
pub struct SecretKey {
    pub bytes: [u8; 32],
}

impl Drop for SecretKey {
    fn drop(&mut self)
        opens_invariants none
        no_unwind
    {
        self.bytes = [
            0, 0, 0, 0, 0, 0, 0, 0, 0, 0, 0, 0, 0, 0, 0, 0, 0, 0, 0, 0, 0, 0, 0, 0, 0, 0, 0, 0, 0, 0,
            0, 0,
        ];
    }
}

/// An ECDSA signature in its compact encoding.
#[derive(Clone, Copy, Debug, PartialEq, Eq)]
pub struct Signature {
    pub bytes: [u8; 64],
}

/// An ECDSA signature encrypted to a point, with the proof that it is one.
#[derive(Clone, Copy, Debug, PartialEq, Eq)]
pub struct AdaptorSignature {
    pub bytes: [u8; 162],
}

/// A Schnorr signature: the x coordinate of the nonce point, then the scalar.
#[derive(Clone, Copy, Debug, PartialEq, Eq)]
pub struct SchnorrSignature {
    pub bytes: [u8; 64],
}

impl View for PublicKey {
    type V = Seq<u8>;

    open spec fn view(&self) -> Seq<u8> {
        self.bytes@
    }
}

impl View for XOnlyPublicKey {
    type V = Seq<u8>;

    open spec fn view(&self) -> Seq<u8> {
        self.bytes@
    }
}

impl View for SecretKey {
    type V = Seq<u8>;

    open spec fn view(&self) -> Seq<u8> {
        self.bytes@
    }
}

impl View for Signature {
    type V = Seq<u8>;

    open spec fn view(&self) -> Seq<u8> {
        self.bytes@
    }
}

impl View for AdaptorSignature {
    type V = Seq<u8>;

    open spec fn view(&self) -> Seq<u8> {
        self.bytes@
    }
}

impl View for SchnorrSignature {
    type V = Seq<u8>;

    open spec fn view(&self) -> Seq<u8> {
        self.bytes@
    }
}

impl PublicKey {
    /// Whether the bytes encode a point of the curve.
    pub fn is_valid(&self) -> (valid: bool)
        ensures
            valid == point_valid(self@),
    {
        is_point(&self.bytes)
    }

    /// Whether two keys are the same.
    pub fn same(&self, other: &PublicKey) -> (same: bool)
        ensures
            same == (self@ == other@),
    {
        bytes_eq(self.bytes.as_slice(), other.bytes.as_slice())
    }
}

impl XOnlyPublicKey {
    /// The x coordinate with the prefix of an even y coordinate in front.
    pub open spec fn lifted(x: Seq<u8>) -> Seq<u8> {
        seq![2u8] + x
    }
}

impl SecretKey {
    /// The public key of the secret key, or `None` where the bytes are no
    /// scalar of the curve or are zero.
    pub fn public_key(&self) -> (key: Option<PublicKey>)
        ensures
            match key {
                Some(k) => public_key_of(self@) == Some(k@),
                None => public_key_of(self@) is None,
            },
    {
        match derive_public_key(&self.bytes) {
            Some(bytes) => Some(PublicKey { bytes }),
            None => None,
        }
    }
}

/// Whether no two of the keys are the same.
pub open spec fn distinct(keys: Seq<PublicKey>) -> bool {
    forall|i: int, j: int| 0 <= i < j < keys.len() ==> keys[i]@ != keys[j]@
}

/// Whether no two of the keys are the same.
pub fn all_distinct(keys: &Vec<PublicKey>) -> (answer: bool)
    ensures
        answer == distinct(keys@),
{
    let mut j: usize = 0;
    while j < keys.len()
        invariant
            j <= keys@.len(),
            forall|a: int, b: int| 0 <= a < b < j ==> keys@[a]@ != keys@[b]@,
        decreases keys@.len() - j,
    {
        let mut i: usize = 0;
        while i < j
            invariant
                i <= j < keys@.len(),
                forall|a: int| 0 <= a < i ==> keys@[a]@ != keys@[j as int]@,
            decreases j - i,
        {
            if keys[i].same(&keys[j]) {
                return false;
            }
            i += 1;
        }
        j += 1;
    }
    true
}

/// Whether every key encodes a point of the curve.
pub open spec fn all_points(keys: Seq<PublicKey>) -> bool {
    forall|i: int| 0 <= i < keys.len() ==> point_valid(#[trigger] keys[i]@)
}

/// Whether every key encodes a point of the curve.
pub fn all_valid(keys: &Vec<PublicKey>) -> (answer: bool)
    ensures
        answer == all_points(keys@),
{
    let mut i: usize = 0;
    while i < keys.len()
        invariant
            i <= keys@.len(),
            forall|a: int| 0 <= a < i ==> point_valid(#[trigger] keys@[a]@),
        decreases keys@.len() - i,
    {
        if !keys[i].is_valid() {
            return false;
        }
        i += 1;
    }
    true
}

} // verus!
