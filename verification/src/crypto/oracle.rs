//! The oracle's side of the contract: the point to which the signatures on an
//! outcome are encrypted, and the attestation that decrypts them.
//!
//! The oracle attests to an outcome with a Schnorr signature `(R, s)` under its
//! key `P`, with a nonce point `R` that it announced before. The signature
//! satisfies `s·G = R + e·P`, where `e` is the challenge hash of `R`, `P` and
//! the outcome. The right-hand side is public before the outcome is known: it
//! is the encryption point. The scalar `s` is its secret key.

use vstd::prelude::*;
use vstd::string::StringSliceAdditionalSpecFns;
use crate::bytes::{append_bytes, join_halves, split_halves, with_even_prefix, without_prefix};
use crate::crypto::hashes::{sha256, sha256_digest};
use crate::crypto::keys::{PublicKey, SchnorrSignature, SecretKey, XOnlyPublicKey};
use crate::crypto::secp::{
    derive_public_key, point_add, point_mul, point_product, point_sum, public_key_of, scalar_add,
    scalar_mul, scalar_negate, scalar_negation, scalar_product, scalar_sum,
};
use crate::error::Error;

verus! {

/// The bytes of the tag of the challenge hash.
pub open spec fn challenge_tag() -> Seq<u8> {
    "BIP0340/challenge".spec_bytes()
}

/// The challenge of a Schnorr signature: the hash, under the challenge tag, of
/// the nonce key, the signer's key and the hashed message.
pub open spec fn challenge_of(nonce_pk: Seq<u8>, oracle_pk: Seq<u8>, message: Seq<u8>) -> Seq<
    u8,
> {
    sha256_digest(
        sha256_digest(challenge_tag()) + sha256_digest(challenge_tag()) + nonce_pk + oracle_pk
            + sha256_digest(message),
    )
}

/// Computes the challenge hash.
pub fn challenge(nonce_pk: &XOnlyPublicKey, oracle_pk: &XOnlyPublicKey, message: &[u8]) -> (hash:
    [u8; 32])
    ensures
        hash@ == challenge_of(nonce_pk@, oracle_pk@, message@),
{
    let tag = sha256("BIP0340/challenge".as_bytes());
    let hashed_message = sha256(message);
    let mut preimage: Vec<u8> = Vec::new();
    append_bytes(&mut preimage, tag.as_slice());
    append_bytes(&mut preimage, tag.as_slice());
    append_bytes(&mut preimage, nonce_pk.bytes.as_slice());
    append_bytes(&mut preimage, oracle_pk.bytes.as_slice());
    append_bytes(&mut preimage, hashed_message.as_slice());
    assert(preimage@ =~= sha256_digest(challenge_tag()) + sha256_digest(challenge_tag())
        + nonce_pk@ + oracle_pk@ + sha256_digest(message@));
    sha256(preimage.as_slice())
}

/// The point that an oracle's key, its nonce key and an outcome determine:
/// the nonce point plus the oracle's point times the challenge.
pub open spec fn signature_point_of(oracle_pk: Seq<u8>, nonce_pk: Seq<u8>, message: Seq<u8>)
    -> Result<Seq<u8>, Error> {
    if message.len() == 0 {
        Err(Error::InvalidMessageEncoding)
    } else {
        match point_product(
            XOnlyPublicKey::lifted(oracle_pk),
            challenge_of(nonce_pk, oracle_pk, message),
        ) {
            None => Err(Error::DegenerateKeys),
            Some(tweaked) => match point_sum(XOnlyPublicKey::lifted(nonce_pk), tweaked) {
                None => Err(Error::DegenerateKeys),
                Some(point) => Ok(point),
            },
        }
    }
}

/// The point to which signatures on an outcome are encrypted, given the two
/// results of the curve arithmetic: the oracle's point times the challenge,
/// and the nonce point plus that product.
pub fn signature_point_from(
    message: &[u8],
    tweaked: Option<[u8; 33]>,
    sum: Option<[u8; 33]>,
) -> (point: Result<PublicKey, Error>)
    ensures
        match point {
            Ok(p) => message@.len() > 0 && tweaked is Some && sum == Some(p.bytes),
            Err(Error::InvalidMessageEncoding) => message@.len() == 0,
            Err(Error::DegenerateKeys) => message@.len() > 0 && (tweaked is None || sum is None),
            Err(_) => false,
        },
{
    if message.len() == 0 {
        return Err(Error::InvalidMessageEncoding);
    }
    match (tweaked, sum) {
        (Some(_), Some(bytes)) => Ok(PublicKey { bytes }),
        _ => Err(Error::DegenerateKeys),
    }
}

/// Computes the encryption point of an outcome from the oracle's public key
/// and the nonce key that it announced for the event: `R + e·P`, where `e` is
/// the challenge of `R`, `P` and the outcome. Fails with
/// `InvalidMessageEncoding` on an empty message, and with `DegenerateKeys`
/// where a key is no x coordinate of the curve or the arithmetic has no
/// result.
pub fn compute_signature_point(
    oracle_pk: &XOnlyPublicKey,
    nonce_pk: &XOnlyPublicKey,
    message: &[u8],
) -> (point: Result<PublicKey, Error>)
    ensures
        match point {
            Ok(p) => signature_point_of(oracle_pk@, nonce_pk@, message@) == Ok::<Seq<u8>, Error>(
                p@,
            ),
            Err(e) => signature_point_of(oracle_pk@, nonce_pk@, message@) == Err::<
                Seq<u8>,
                Error,
            >(e),
        },
{
    if message.len() == 0 {
        return Err(Error::InvalidMessageEncoding);
    }
    let hash = challenge(nonce_pk, oracle_pk, message);
    let tweaked = point_mul(&with_even_prefix(&oracle_pk.bytes), &hash);
    let sum = match tweaked {
        Some(product) => point_add(&with_even_prefix(&nonce_pk.bytes), &product),
        None => None,
    };
    signature_point_from(message, tweaked, sum)
}

/// A scalar, negated where the point that belongs to it has an odd y
/// coordinate, so that it belongs to the point with the same x coordinate and
/// an even y coordinate.
pub open spec fn even_scalar(sk: Seq<u8>, pk: Seq<u8>) -> Option<Seq<u8>> {
    if pk[0] == 3 {
        scalar_negation(sk)
    } else {
        Some(sk)
    }
}

/// The attestation of an oracle to an outcome: the x coordinate of the nonce
/// point, then the scalar `k + e·d`, where `d` and `k` are the oracle's key and
/// the nonce, each negated where its point has an odd y coordinate.
pub open spec fn attestation_of(oracle_sk: Seq<u8>, nonce_sk: Seq<u8>, message: Seq<u8>) -> Result<
    Seq<u8>,
    Error,
> {
    if message.len() == 0 {
        Err(Error::InvalidMessageEncoding)
    } else {
        match (public_key_of(oracle_sk), public_key_of(nonce_sk)) {
            (Some(oracle_pk), Some(nonce_pk)) => {
                match (even_scalar(oracle_sk, oracle_pk), even_scalar(nonce_sk, nonce_pk)) {
                    (Some(d), Some(k)) => match scalar_product(
                        d,
                        challenge_of(nonce_pk.skip(1), oracle_pk.skip(1), message),
                    ) {
                        None => Err(Error::DegenerateKeys),
                        Some(ed) => match scalar_sum(ed, k) {
                            None => Err(Error::DegenerateKeys),
                            Some(s) => Ok(nonce_pk.skip(1) + s),
                        },
                    },
                    _ => Err(Error::DegenerateKeys),
                }
            },
            _ => Err(Error::DegenerateKeys),
        }
    }
}

fn make_even(sk: &SecretKey, pk: &[u8; 33]) -> (scalar: Option<[u8; 32]>)
    ensures
        match scalar {
            Some(s) => even_scalar(sk@, pk@) == Some(s@),
            None => even_scalar(sk@, pk@) is None,
        },
{
    if pk[0] == 3 {
        scalar_negate(&sk.bytes)
    } else {
        Some(sk.bytes)
    }
}

/// Attests to an outcome with the oracle's secret key and the secret nonce of
/// the event. Fails with `InvalidMessageEncoding` on an empty message, and
/// with `DegenerateKeys` where a key is malformed or the arithmetic has no
/// result.
pub fn attest(oracle_sk: &SecretKey, nonce_sk: &SecretKey, message: &[u8]) -> (signature: Result<
    SchnorrSignature,
    Error,
>)
    ensures
        match signature {
            Ok(s) => attestation_of(oracle_sk@, nonce_sk@, message@) == Ok::<Seq<u8>, Error>(s@),
            Err(e) => attestation_of(oracle_sk@, nonce_sk@, message@) == Err::<Seq<u8>, Error>(
                e,
            ),
        },
{
    if message.len() == 0 {
        return Err(Error::InvalidMessageEncoding);
    }
    let oracle_pk = match derive_public_key(&oracle_sk.bytes) {
        Some(key) => key,
        None => {
            return Err(Error::DegenerateKeys);
        },
    };
    let nonce_pk = match derive_public_key(&nonce_sk.bytes) {
        Some(key) => key,
        None => {
            return Err(Error::DegenerateKeys);
        },
    };
    let d = match make_even(oracle_sk, &oracle_pk) {
        Some(scalar) => scalar,
        None => {
            return Err(Error::DegenerateKeys);
        },
    };
    let k = match make_even(nonce_sk, &nonce_pk) {
        Some(scalar) => scalar,
        None => {
            return Err(Error::DegenerateKeys);
        },
    };
    let nonce_x = XOnlyPublicKey { bytes: without_prefix(&nonce_pk) };
    let oracle_x = XOnlyPublicKey { bytes: without_prefix(&oracle_pk) };
    let e = challenge(&nonce_x, &oracle_x, message);
    let ed = match scalar_mul(&d, &e) {
        Some(scalar) => scalar,
        None => {
            return Err(Error::DegenerateKeys);
        },
    };
    match scalar_add(&ed, &k) {
        Some(s) => Ok(SchnorrSignature { bytes: join_halves(&nonce_x.bytes, &s) }),
        None => Err(Error::DegenerateKeys),
    }
}

/// The x coordinate of the public key of a secret key.
pub fn x_only_public_key(sk: &SecretKey) -> (key: Option<XOnlyPublicKey>)
    ensures
        match key {
            Some(k) => public_key_of(sk@) is Some && k@ == public_key_of(sk@)->Some_0.skip(1),
            None => public_key_of(sk@) is None,
        },
{
    match derive_public_key(&sk.bytes) {
        Some(key) => Some(XOnlyPublicKey { bytes: without_prefix(&key) }),
        None => None,
    }
}

/// The parts of an attestation: the nonce key, and the scalar that decrypts
/// what was encrypted to the signature point of the attested outcome.
pub fn decompose(signature: &SchnorrSignature) -> (parts: (XOnlyPublicKey, SecretKey))
    ensures
        parts.0@ == signature@.take(32),
        parts.1@ == signature@.skip(32),
{
    let (nonce, scalar) = split_halves(&signature.bytes);
    (XOnlyPublicKey { bytes: nonce }, SecretKey { bytes: scalar })
}

} // verus!
