//! Elliptic-curve operations of the crates `secp256k1` and
//! `secp256k1-zkp`, on keys, scalars and signatures in their byte encodings.
//!
//! Every executable function here is trusted: its body makes one call into
//! these crates, and its contract names the result without saying how it is
//! computed. A result is `None` (or `false`) where the crate refuses an
//! argument.

use vstd::prelude::*;

verus! {

/// An optional byte array, seen as an optional sequence of bytes.
pub open spec fn bytes_of<const N: usize>(value: Option<[u8; N]>) -> Option<Seq<u8>> {
    match value {
        Some(bytes) => Some(bytes@),
        None => None,
    }
}

/// The compressed encoding of the public key that belongs to a secret key, or
/// `None` where the 32 bytes are no secret key of the curve.
pub uninterp spec fn public_key_of(secret: Seq<u8>) -> Option<Seq<u8>>;

/// Whether 33 bytes are the compressed encoding of a point of the curve.
pub uninterp spec fn point_valid(key: Seq<u8>) -> bool;

/// The compact encoding of the ECDSA signature that a secret key gives on a
/// 32-byte digest, with the nonce of RFC 6979.
pub uninterp spec fn ecdsa_signature(digest: Seq<u8>, secret: Seq<u8>) -> Option<Seq<u8>>;

/// Whether a compact ECDSA signature is valid for a digest under a public key.
pub uninterp spec fn ecdsa_valid(digest: Seq<u8>, signature: Seq<u8>, key: Seq<u8>) -> bool;

/// The compact signature that a DER encoding holds.
pub uninterp spec fn der_decoding(der: Seq<u8>) -> Option<Seq<u8>>;

/// The adaptor signature of a digest under a secret key, encrypted to a point,
/// with the given auxiliary randomness in the nonce.
pub uninterp spec fn adaptor_encryption(
    digest: Seq<u8>,
    secret: Seq<u8>,
    encryption_key: Seq<u8>,
    aux: Seq<u8>,
) -> Option<Seq<u8>>;

/// The ECDSA signature that a decryption key opens from an adaptor signature.
pub uninterp spec fn adaptor_decryption(adaptor: Seq<u8>, decryption_key: Seq<u8>) -> Option<
    Seq<u8>,
>;

/// Whether an adaptor signature is valid for a digest, a signer and an
/// encryption point.
pub uninterp spec fn adaptor_valid(
    adaptor: Seq<u8>,
    digest: Seq<u8>,
    key: Seq<u8>,
    encryption_key: Seq<u8>,
) -> bool;

/// The decryption key that an adaptor signature and its decrypted signature
/// give away for an encryption point.
pub uninterp spec fn adaptor_recovery(
    adaptor: Seq<u8>,
    signature: Seq<u8>,
    encryption_key: Seq<u8>,
) -> Option<Seq<u8>>;

/// A point multiplied by a scalar.
pub uninterp spec fn point_product(key: Seq<u8>, scalar: Seq<u8>) -> Option<Seq<u8>>;

/// The sum of two points.
pub uninterp spec fn point_sum(a: Seq<u8>, b: Seq<u8>) -> Option<Seq<u8>>;

/// The product of two scalars modulo the order of the curve.
pub uninterp spec fn scalar_product(a: Seq<u8>, b: Seq<u8>) -> Option<Seq<u8>>;

/// The sum of two scalars modulo the order of the curve.
pub uninterp spec fn scalar_sum(a: Seq<u8>, b: Seq<u8>) -> Option<Seq<u8>>;

/// The negation of a scalar modulo the order of the curve.
pub uninterp spec fn scalar_negation(a: Seq<u8>) -> Option<Seq<u8>>;

/// Calls `SecretKey::from_slice` and `PublicKey::from_secret_key`. Trusted: the
/// result is the key that [`public_key_of`] names.
#[verifier::external_body]
pub(crate) fn derive_public_key(secret: &[u8; 32]) -> (key: Option<[u8; 33]>)
    ensures
        bytes_of(key) == public_key_of(secret@),
{
    let sk = secp256k1_zkp::SecretKey::from_slice(secret).ok()?;
    Some(secp256k1_zkp::PublicKey::from_secret_key(secp256k1_zkp::SECP256K1, &sk).serialize())
}

/// Calls `PublicKey::from_slice`. Trusted: the answer is [`point_valid`].
#[verifier::external_body]
pub(crate) fn is_point(key: &[u8; 33]) -> (valid: bool)
    ensures
        valid == point_valid(key@),
{
    secp256k1_zkp::PublicKey::from_slice(key).is_ok()
}

/// Calls `Secp256k1::sign`. Trusted: the result is the signature that
/// [`ecdsa_signature`] names.
#[verifier::external_body]
pub(crate) fn ecdsa_sign(digest: &[u8; 32], secret: &[u8; 32]) -> (signature: Option<[u8; 64]>)
    ensures
        bytes_of(signature) == ecdsa_signature(digest@, secret@),
{
    let msg = secp256k1_zkp::Message::from_slice(digest).ok()?;
    let sk = secp256k1_zkp::SecretKey::from_slice(secret).ok()?;
    Some(secp256k1_zkp::SECP256K1.sign(&msg, &sk).serialize_compact())
}

/// Calls `Secp256k1::verify`. Trusted: the answer is [`ecdsa_valid`].
#[verifier::external_body]
pub(crate) fn ecdsa_verify(digest: &[u8; 32], signature: &[u8; 64], key: &[u8; 33]) -> (valid:
    bool)
    ensures
        valid == ecdsa_valid(digest@, signature@, key@),
{
    let msg = secp256k1_zkp::Message::from_slice(digest);
    let sig = secp256k1_zkp::Signature::from_compact(signature);
    let pk = secp256k1_zkp::PublicKey::from_slice(key);
    match (msg, sig, pk) {
        (Ok(m), Ok(s), Ok(p)) => secp256k1_zkp::SECP256K1.verify(&m, &s, &p).is_ok(),
        _ => false,
    }
}

/// Calls `Signature::from_der`. Trusted: the result is [`der_decoding`].
#[verifier::external_body]
pub(crate) fn signature_from_der(der: &[u8]) -> (signature: Option<[u8; 64]>)
    ensures
        bytes_of(signature) == der_decoding(der@),
{
    Some(secp256k1_zkp::Signature::from_der(der).ok()?.serialize_compact())
}

/// Calls `EcdsaAdaptorSignature::encrypt_with_aux_rand`. Trusted: the result is
/// the adaptor signature that [`adaptor_encryption`] names.
#[verifier::external_body]
pub(crate) fn adaptor_encrypt(
    digest: &[u8; 32],
    secret: &[u8; 32],
    encryption_key: &[u8; 33],
    aux: &[u8; 32],
) -> (adaptor: Option<[u8; 162]>)
    ensures
        bytes_of(adaptor) == adaptor_encryption(digest@, secret@, encryption_key@, aux@),
{
    let msg = secp256k1_zkp::Message::from_slice(digest).ok()?;
    let sk = secp256k1_zkp::SecretKey::from_slice(secret).ok()?;
    let point = secp256k1_zkp::PublicKey::from_slice(encryption_key).ok()?;
    let sig = secp256k1_zkp::EcdsaAdaptorSignature::encrypt_with_aux_rand(
        secp256k1_zkp::SECP256K1,
        &msg,
        &sk,
        &point,
        aux,
    );
    sig.as_ref().try_into().ok()
}

/// Calls `EcdsaAdaptorSignature::decrypt`. Trusted: the result is
/// [`adaptor_decryption`].
#[verifier::external_body]
pub(crate) fn adaptor_decrypt(adaptor: &[u8; 162], decryption_key: &[u8; 32]) -> (signature:
    Option<[u8; 64]>)
    ensures
        bytes_of(signature) == adaptor_decryption(adaptor@, decryption_key@),
{
    let sig = secp256k1_zkp::EcdsaAdaptorSignature::from_slice(adaptor).ok()?;
    let sk = secp256k1_zkp::SecretKey::from_slice(decryption_key).ok()?;
    Some(sig.decrypt(&sk).ok()?.serialize_compact())
}

/// Calls `EcdsaAdaptorSignature::verify`. Trusted: the answer is
/// [`adaptor_valid`].
#[verifier::external_body]
pub(crate) fn adaptor_verify(
    adaptor: &[u8; 162],
    digest: &[u8; 32],
    key: &[u8; 33],
    encryption_key: &[u8; 33],
) -> (valid: bool)
    ensures
        valid == adaptor_valid(adaptor@, digest@, key@, encryption_key@),
{
    let sig = secp256k1_zkp::EcdsaAdaptorSignature::from_slice(adaptor);
    let msg = secp256k1_zkp::Message::from_slice(digest);
    let pk = secp256k1_zkp::PublicKey::from_slice(key);
    let point = secp256k1_zkp::PublicKey::from_slice(encryption_key);
    match (sig, msg, pk, point) {
        (Ok(s), Ok(m), Ok(p), Ok(e)) => s.verify(secp256k1_zkp::SECP256K1, &m, &p, &e).is_ok(),
        _ => false,
    }
}

/// Calls `EcdsaAdaptorSignature::recover`. Trusted: the result is
/// [`adaptor_recovery`].
#[verifier::external_body]
pub(crate) fn adaptor_recover(
    adaptor: &[u8; 162],
    signature: &[u8; 64],
    encryption_key: &[u8; 33],
) -> (decryption_key: Option<[u8; 32]>)
    ensures
        bytes_of(decryption_key) == adaptor_recovery(adaptor@, signature@, encryption_key@),
{
    let enc = secp256k1_zkp::EcdsaAdaptorSignature::from_slice(adaptor).ok()?;
    let sig = secp256k1_zkp::Signature::from_compact(signature).ok()?;
    let point = secp256k1_zkp::PublicKey::from_slice(encryption_key).ok()?;
    let sk = enc.recover(secp256k1_zkp::SECP256K1, &sig, &point).ok()?;
    Some(*sk.as_ref())
}

/// Calls `PublicKey::mul_assign`. Trusted: the result is [`point_product`].
#[verifier::external_body]
pub(crate) fn point_mul(key: &[u8; 33], scalar: &[u8; 32]) -> (product: Option<[u8; 33]>)
    ensures
        bytes_of(product) == point_product(key@, scalar@),
{
    let mut point = secp256k1_zkp::PublicKey::from_slice(key).ok()?;
    point.mul_assign(secp256k1_zkp::SECP256K1, scalar).ok()?;
    Some(point.serialize())
}

/// Calls `PublicKey::combine`. Trusted: the result is [`point_sum`].
#[verifier::external_body]
pub(crate) fn point_add(a: &[u8; 33], b: &[u8; 33]) -> (sum: Option<[u8; 33]>)
    ensures
        bytes_of(sum) == point_sum(a@, b@),
{
    let first = secp256k1_zkp::PublicKey::from_slice(a).ok()?;
    let second = secp256k1_zkp::PublicKey::from_slice(b).ok()?;
    Some(first.combine(&second).ok()?.serialize())
}

/// Calls `SecretKey::mul_assign`. Trusted: the result is [`scalar_product`].
#[verifier::external_body]
pub(crate) fn scalar_mul(a: &[u8; 32], b: &[u8; 32]) -> (product: Option<[u8; 32]>)
    ensures
        bytes_of(product) == scalar_product(a@, b@),
{
    let mut scalar = secp256k1_zkp::SecretKey::from_slice(a).ok()?;
    scalar.mul_assign(b).ok()?;
    Some(*scalar.as_ref())
}

/// Calls `SecretKey::add_assign`. Trusted: the result is [`scalar_sum`].
#[verifier::external_body]
pub(crate) fn scalar_add(a: &[u8; 32], b: &[u8; 32]) -> (sum: Option<[u8; 32]>)
    ensures
        bytes_of(sum) == scalar_sum(a@, b@),
{
    let mut scalar = secp256k1_zkp::SecretKey::from_slice(a).ok()?;
    scalar.add_assign(b).ok()?;
    Some(*scalar.as_ref())
}

/// Calls `SecretKey::negate_assign`. Trusted: the result is
/// [`scalar_negation`].
#[verifier::external_body]
pub(crate) fn scalar_negate(a: &[u8; 32]) -> (negation: Option<[u8; 32]>)
    ensures
        bytes_of(negation) == scalar_negation(a@),
{
    let mut scalar = secp256k1_zkp::SecretKey::from_slice(a).ok()?;
    scalar.negate_assign();
    Some(*scalar.as_ref())
}

/// Calls `rand::random`. Trusted: nothing is claimed of the 32 bytes.
#[verifier::external_body]
pub(crate) fn fresh_randomness() -> (bytes: [u8; 32]) {
    rand::random::<[u8; 32]>()
}

} // verus!
