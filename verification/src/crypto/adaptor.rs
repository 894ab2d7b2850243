//! Signatures and adaptor signatures over the signature hash of a spending
//! transaction.
//!
//! An adaptor signature is a signature encrypted to a point of the curve. The
//! scalar behind that point decrypts it; and who holds the adaptor signature
//! and sees the decrypted one learns that scalar.

use vstd::prelude::*;
use crate::bytes::bytes_eq;
use crate::crypto::keys::{AdaptorSignature, PublicKey, SecretKey, Signature};
use crate::crypto::secp::{
    adaptor_decrypt, adaptor_decryption, adaptor_encrypt, adaptor_encryption, adaptor_recover,
    adaptor_recovery, adaptor_valid, adaptor_verify, derive_public_key, ecdsa_sign,
    ecdsa_signature, ecdsa_valid, ecdsa_verify, fresh_randomness, public_key_of,
};
use crate::error::Error;

verus! {

/// The signature of a secret key on a signature hash. It is handed out only
/// where it is valid under the public key of the secret key.
pub open spec fn signature_of(sighash: Seq<u8>, sk: Seq<u8>) -> Result<Seq<u8>, Error> {
    match (ecdsa_signature(sighash, sk), public_key_of(sk)) {
        (Some(signature), Some(pk)) if ecdsa_valid(sighash, signature, pk) => Ok(signature),
        _ => Err(Error::DegenerateKeys),
    }
}

/// Signs a signature hash, and checks the signature before handing it out.
/// Fails with `DegenerateKeys` where the bytes of the key are no secret key.
pub fn sign(sighash: &[u8; 32], sk: &SecretKey) -> (signature: Result<Signature, Error>)
    ensures
        match signature {
            Ok(s) => signature_of(sighash@, sk@) == Ok::<Seq<u8>, Error>(s@),
            Err(e) => signature_of(sighash@, sk@) == Err::<Seq<u8>, Error>(e),
        },
{
    match (ecdsa_sign(sighash, &sk.bytes), derive_public_key(&sk.bytes)) {
        (Some(bytes), Some(pk)) => {
            if ecdsa_verify(sighash, &bytes, &pk) {
                Ok(Signature { bytes })
            } else {
                Err(Error::DegenerateKeys)
            }
        },
        _ => Err(Error::DegenerateKeys),
    }
}

/// Whether a signature is valid for a signature hash under a public key.
pub fn verify(signature: &Signature, sighash: &[u8; 32], pk: &PublicKey) -> (valid: bool)
    ensures
        valid == ecdsa_valid(sighash@, signature@, pk@),
{
    ecdsa_verify(sighash, &signature.bytes, &pk.bytes)
}

/// The adaptor signature of a secret key on a signature hash, encrypted to a
/// point, made with the given auxiliary randomness. It is handed out only
/// where it is valid for the public key of the secret key and the point.
pub open spec fn encryption_of(
    sighash: Seq<u8>,
    sk: Seq<u8>,
    encryption_point: Seq<u8>,
    aux: Seq<u8>,
) -> Result<Seq<u8>, Error> {
    match (adaptor_encryption(sighash, sk, encryption_point, aux), public_key_of(sk)) {
        (Some(adaptor), Some(pk)) if adaptor_valid(adaptor, sighash, pk, encryption_point) => Ok(
            adaptor,
        ),
        _ => Err(Error::DegenerateKeys),
    }
}

/// Whether a result holds the expected bytes, or the expected error.
pub open spec fn adaptor_matches(
    result: Result<AdaptorSignature, Error>,
    expected: Result<Seq<u8>, Error>,
) -> bool {
    match result {
        Ok(adaptor) => expected == Ok::<Seq<u8>, Error>(adaptor@),
        Err(e) => expected == Err::<Seq<u8>, Error>(e),
    }
}

/// Signs a signature hash and encrypts the signature to a point, with the
/// given 32 bytes of auxiliary randomness in the nonce, and checks the adaptor
/// signature before handing it out. Fails with `DegenerateKeys` where the key
/// or the point is malformed.
pub fn encrypt_with_aux(
    sighash: &[u8; 32],
    sk: &SecretKey,
    encryption_point: &PublicKey,
    aux: &[u8; 32],
) -> (adaptor: Result<AdaptorSignature, Error>)
    ensures
        adaptor_matches(adaptor, encryption_of(sighash@, sk@, encryption_point@, aux@)),
{
    match (
        adaptor_encrypt(sighash, &sk.bytes, &encryption_point.bytes, aux),
        derive_public_key(&sk.bytes),
    ) {
        (Some(bytes), Some(pk)) => {
            if adaptor_verify(&bytes, sighash, &pk, &encryption_point.bytes) {
                Ok(AdaptorSignature { bytes })
            } else {
                Err(Error::DegenerateKeys)
            }
        },
        _ => Err(Error::DegenerateKeys),
    }
}

/// Every signature and adaptor signature that is handed out is valid: a
/// signature verifies under the public key of the secret key that made it, and
/// an adaptor signature verifies for that key and the point that it is
/// encrypted to.
pub proof fn handed_out_signatures_are_valid(
    sighash: Seq<u8>,
    sk: Seq<u8>,
    encryption_point: Seq<u8>,
    aux: Seq<u8>,
)
    ensures
        signature_of(sighash, sk) matches Ok(signature) ==> public_key_of(sk) is Some
            && ecdsa_valid(sighash, signature, public_key_of(sk)->Some_0),
        encryption_of(sighash, sk, encryption_point, aux) matches Ok(adaptor) ==> public_key_of(
            sk,
        ) is Some && adaptor_valid(
            adaptor,
            sighash,
            public_key_of(sk)->Some_0,
            encryption_point,
        ),
{
}

/// Signs a signature hash and encrypts the signature to a point, with fresh
/// auxiliary randomness: the result is that of [`encrypt_with_aux`] for some
/// 32 bytes.
pub fn encrypt(sighash: &[u8; 32], sk: &SecretKey, encryption_point: &PublicKey) -> (adaptor:
    Result<AdaptorSignature, Error>)
    ensures
        exists|aux: Seq<u8>|
            aux.len() == 32 && adaptor_matches(
                adaptor,
                #[trigger] encryption_of(sighash@, sk@, encryption_point@, aux),
            ),
{
    let aux = fresh_randomness();
    let adaptor = encrypt_with_aux(sighash, sk, encryption_point, &aux);
    assert(aux@.len() == 32);
    assert(adaptor_matches(adaptor, encryption_of(sighash@, sk@, encryption_point@, aux@)));
    adaptor
}

/// Whether an adaptor signature is one of `pk` on the signature hash,
/// encrypted to the point.
pub fn verify_adaptor(
    adaptor: &AdaptorSignature,
    sighash: &[u8; 32],
    pk: &PublicKey,
    encryption_point: &PublicKey,
) -> (valid: bool)
    ensures
        valid == adaptor_valid(adaptor@, sighash@, pk@, encryption_point@),
{
    adaptor_verify(&adaptor.bytes, sighash, &pk.bytes, &encryption_point.bytes)
}

/// The signature that a key decrypts from an adaptor signature.
pub open spec fn decryption_of(adaptor: Seq<u8>, decryption_sk: Seq<u8>) -> Result<
    Seq<u8>,
    Error,
> {
    match adaptor_decryption(adaptor, decryption_sk) {
        Some(signature) => Ok(signature),
        None => Err(Error::DegenerateKeys),
    }
}

/// Decrypts an adaptor signature. A wrong key gives a signature too: one that
/// is not valid. Fails with `DegenerateKeys` where `secp256k1-zkp` refuses
/// the key or the adaptor signature.
pub fn decrypt(adaptor: &AdaptorSignature, decryption_sk: &SecretKey) -> (signature: Result<
    Signature,
    Error,
>)
    ensures
        match signature {
            Ok(s) => decryption_of(adaptor@, decryption_sk@) == Ok::<Seq<u8>, Error>(s@),
            Err(e) => decryption_of(adaptor@, decryption_sk@) == Err::<Seq<u8>, Error>(e),
        },
{
    match adaptor_decrypt(&adaptor.bytes, &decryption_sk.bytes) {
        Some(bytes) => Ok(Signature { bytes }),
        None => Err(Error::DegenerateKeys),
    }
}

/// The decrypted signature once it has been checked: it is kept only where it
/// is valid for the signature hash under the signer's key.
pub open spec fn verified_decryption_of(
    adaptor: Seq<u8>,
    decryption_sk: Seq<u8>,
    sighash: Seq<u8>,
    pk: Seq<u8>,
) -> Result<Seq<u8>, Error> {
    match decryption_of(adaptor, decryption_sk) {
        Err(e) => Err(e),
        Ok(signature) => if ecdsa_valid(sighash, signature, pk) {
            Ok(signature)
        } else {
            Err(Error::ScriptSatisfaction)
        },
    }
}

/// Decrypts an adaptor signature and checks the result, so that a wrong
/// decryption key is noticed: fails with `ScriptSatisfaction` where the
/// decrypted signature is not valid for the signature hash under `pk`.
pub fn decrypt_verified(
    adaptor: &AdaptorSignature,
    decryption_sk: &SecretKey,
    sighash: &[u8; 32],
    pk: &PublicKey,
) -> (signature: Result<Signature, Error>)
    ensures
        match signature {
            Ok(s) => verified_decryption_of(adaptor@, decryption_sk@, sighash@, pk@) == Ok::<
                Seq<u8>,
                Error,
            >(s@) && ecdsa_valid(sighash@, s@, pk@),
            Err(e) => verified_decryption_of(adaptor@, decryption_sk@, sighash@, pk@) == Err::<
                Seq<u8>,
                Error,
            >(e),
        },
{
    match decrypt(adaptor, decryption_sk) {
        Err(e) => Err(e),
        Ok(signature) => {
            if verify(&signature, sighash, pk) {
                Ok(signature)
            } else {
                Err(Error::ScriptSatisfaction)
            }
        },
    }
}

/// The key that an adaptor signature and its decrypted signature give away,
/// kept only where it is the secret key of the encryption point.
pub open spec fn recovery_of(adaptor: Seq<u8>, signature: Seq<u8>, encryption_point: Seq<u8>)
    -> Result<Seq<u8>, Error> {
    match adaptor_recovery(adaptor, signature, encryption_point) {
        None => Err(Error::NotPunishable),
        Some(sk) => if public_key_of(sk) == Some(encryption_point) {
            Ok(sk)
        } else {
            Err(Error::NotPunishable)
        },
    }
}

/// A decrypted signature that has been checked is valid: whatever
/// [`decrypt_verified`] hands out verifies for the signature hash under the
/// signer's key.
pub proof fn verified_decryption_is_valid(
    adaptor: Seq<u8>,
    decryption_sk: Seq<u8>,
    sighash: Seq<u8>,
    pk: Seq<u8>,
)
    ensures
        verified_decryption_of(adaptor, decryption_sk, sighash, pk) matches Ok(signature)
            ==> ecdsa_valid(sighash, signature, pk) && adaptor_decryption(adaptor, decryption_sk)
            == Some(signature),
{
}

/// A recovered key is the secret key of the encryption point: whatever
/// [`recover`] hands out has the encryption point as its public key.
pub proof fn recovered_key_belongs_to_encryption_point(
    adaptor: Seq<u8>,
    signature: Seq<u8>,
    encryption_point: Seq<u8>,
)
    ensures
        recovery_of(adaptor, signature, encryption_point) matches Ok(sk) ==> public_key_of(sk)
            == Some(encryption_point) && adaptor_recovery(adaptor, signature, encryption_point)
            == Some(sk),
{
}

/// Recovers the decryption key from an adaptor signature and the signature
/// that was decrypted from it. Fails with `NotPunishable` where nothing is
/// recovered, or where what is recovered is not the secret key of the
/// encryption point.
pub fn recover(
    adaptor: &AdaptorSignature,
    signature: &Signature,
    encryption_point: &PublicKey,
) -> (decryption_sk: Result<SecretKey, Error>)
    ensures
        match decryption_sk {
            Ok(sk) => recovery_of(adaptor@, signature@, encryption_point@) == Ok::<
                Seq<u8>,
                Error,
            >(sk@) && public_key_of(sk@) == Some(encryption_point@),
            Err(e) => recovery_of(adaptor@, signature@, encryption_point@) == Err::<
                Seq<u8>,
                Error,
            >(e),
        },
{
    match adaptor_recover(&adaptor.bytes, &signature.bytes, &encryption_point.bytes) {
        None => Err(Error::NotPunishable),
        Some(bytes) => {
            match derive_public_key(&bytes) {
                Some(point) => {
                    if bytes_eq(point.as_slice(), encryption_point.bytes.as_slice()) {
                        Ok(SecretKey { bytes })
                    } else {
                        Err(Error::NotPunishable)
                    }
                },
                None => Err(Error::NotPunishable),
            }
        },
    }
}

} // verus!
