//! The spending conditions of the lock output and of the commit output.
//!
//! A condition is written down as descriptor text; the crate `miniscript`
//! turns the text into scripts and, given signatures, into a witness.

use vstd::prelude::*;
use vstd::string::StringExecFns;
use miniscript::DescriptorTrait;
use crate::crypto::hashes::{hash160, hash160_digest};
use crate::bytes::copy_bytes;
use crate::crypto::keys::{all_distinct, all_points, all_valid, distinct, PublicKey, Signature};
use crate::crypto::secp::point_valid;
use crate::error::Error;
use crate::hex::{hex_of, to_hex};

verus! {

/// The script of an output that pays to a descriptor, or `None` where the text
/// is no descriptor over public keys.
pub uninterp spec fn script_pubkey_of(descriptor: Seq<char>) -> Option<Seq<u8>>;

/// The script that a signature commits to when it spends an output of a
/// descriptor.
pub uninterp spec fn script_code_of(descriptor: Seq<char>) -> Option<Seq<u8>>;

/// The witness that satisfies a descriptor with the signatures at hand, each
/// given with its key, or `None` where they do not suffice.
pub uninterp spec fn satisfaction_of(
    descriptor: Seq<char>,
    signers: Seq<(Seq<u8>, Seq<u8>)>,
) -> Option<Seq<Seq<u8>>>;

/// A public key with a signature under it.
#[derive(Clone, Copy, Debug)]
pub struct Signer {
    pub key: PublicKey,
    pub signature: Signature,
}

impl DeepView for Signer {
    type V = (Seq<u8>, Seq<u8>);

    open spec fn deep_view(&self) -> (Seq<u8>, Seq<u8>) {
        (self.key@, self.signature@)
    }
}

/// Calls `Descriptor::from_str` and `DescriptorTrait::script_pubkey`, on a
/// descriptor text of the protocol only. Trusted: the result is the script
/// that [`script_pubkey_of`] names.
#[verifier::external_body]
pub(crate) fn descriptor_script_pubkey(text: &str) -> (script: Option<Vec<u8>>)
    requires
        is_protocol_text(text@),
    ensures
        match script {
            Some(s) => script_pubkey_of(text@) == Some(s@),
            None => script_pubkey_of(text@) is None,
        },
{
    let descriptor = text.parse::<miniscript::Descriptor<bitcoin::PublicKey>>().ok()?;
    Some(descriptor.script_pubkey().into_bytes())
}

/// Calls `Descriptor::from_str` and `DescriptorTrait::script_code`, on a
/// descriptor text of the protocol only. Trusted: the result is the script
/// that [`script_code_of`] names.
#[verifier::external_body]
pub(crate) fn descriptor_script_code(text: &str) -> (script: Option<Vec<u8>>)
    requires
        is_protocol_text(text@),
    ensures
        match script {
            Some(s) => script_code_of(text@) == Some(s@),
            None => script_code_of(text@) is None,
        },
{
    let descriptor = text.parse::<miniscript::Descriptor<bitcoin::PublicKey>>().ok()?;
    Some(descriptor.script_code().into_bytes())
}

/// Calls `Descriptor::from_str`, on a descriptor text of the protocol only,
/// and `DescriptorTrait::get_satisfaction` with a table from the hash of each
/// key to the key and its signature, of the hash type that covers all of a
/// transaction. Trusted: the result is the witness that [`satisfaction_of`]
/// names.
#[verifier::external_body]
pub(crate) fn descriptor_satisfaction(text: &str, signers: &Vec<Signer>) -> (witness: Option<
    Vec<Vec<u8>>,
>)
    requires
        is_protocol_text(text@),
    ensures
        match witness {
            Some(w) => satisfaction_of(text@, signers.deep_view()) == Some(w.deep_view()),
            None => satisfaction_of(text@, signers.deep_view()) is None,
        },
{
    let descriptor = text.parse::<miniscript::Descriptor<bitcoin::PublicKey>>().ok()?;
    let mut table = std::collections::HashMap::new();
    for signer in signers.iter() {
        let key = bitcoin::PublicKey::from_slice(&signer.key.bytes).ok()?;
        let signature = bitcoin::secp256k1::Signature::from_compact(&signer.signature.bytes).ok()?;
        let hash = bitcoin::hashes::hash160::Hash::from(key.pubkey_hash());
        table.insert(hash, (key, (signature, bitcoin::SigHashType::All)));
    }
    Some(descriptor.get_satisfaction(table).ok()?.0)
}

/// A spending condition of the protocol: its text, the script of an output
/// that pays to it, and the script that signatures commit to when they spend
/// such an output. A descriptor is made by [`lock_descriptor`] or by
/// [`commit_descriptor`] only, so its scripts are always those of its text.
#[derive(Debug, PartialEq, Eq)]
pub struct Descriptor {
    text: String,
    script_pubkey: Vec<u8>,
    script_code: Vec<u8>,
}

/// What a [`Descriptor`] holds.
pub struct DescriptorView {
    pub text: Seq<char>,
    pub script_pubkey: Seq<u8>,
    pub script_code: Seq<u8>,
}

impl DeepView for Descriptor {
    type V = DescriptorView;

    closed spec fn deep_view(&self) -> DescriptorView {
        DescriptorView {
            text: self.text@,
            script_pubkey: self.script_pubkey@,
            script_code: self.script_code@,
        }
    }
}

impl Descriptor {
    /// What holds of every descriptor: its text is one of the two descriptor
    /// texts of the protocol, and its scripts are those of the text.
    #[verifier::type_invariant]
    pub open spec fn wf(&self) -> bool {
        &&& is_protocol_text(self.deep_view().text)
        &&& described(self.deep_view().text) == Ok::<DescriptorView, Error>(self.deep_view())
    }

    /// A copy of the descriptor.
    pub fn duplicate(&self) -> (copy: Descriptor)
        ensures
            copy.deep_view() == self.deep_view(),
    {
        proof {
            use_type_invariant(self);
        }
        Descriptor {
            text: self.text.clone(),
            script_pubkey: copy_bytes(self.script_pubkey.as_slice()),
            script_code: copy_bytes(self.script_code.as_slice()),
        }
    }

    /// The text of the descriptor.
    pub fn text(&self) -> (text: &str)
        ensures
            text@ == self.deep_view().text,
            self.wf(),
    {
        proof {
            use_type_invariant(self);
        }
        self.text.as_str()
    }

    /// The script of an output that pays to the descriptor.
    pub fn script_pubkey(&self) -> (script: &Vec<u8>)
        ensures
            script@ == self.deep_view().script_pubkey,
            self.wf(),
    {
        proof {
            use_type_invariant(self);
        }
        &self.script_pubkey
    }

    /// The script that a signature commits to when it spends an output of
    /// the descriptor.
    pub fn script_code(&self) -> (script: &Vec<u8>)
        ensures
            script@ == self.deep_view().script_code,
            self.wf(),
    {
        proof {
            use_type_invariant(self);
        }
        &self.script_code
    }
}

/// The descriptor that a text stands for, where `miniscript` accepts it.
pub open spec fn described(text: Seq<char>) -> Result<DescriptorView, Error> {
    match (script_pubkey_of(text), script_code_of(text)) {
        (Some(script_pubkey), Some(script_code)) => Ok(
            DescriptorView { text, script_pubkey, script_code },
        ),
        _ => Err(Error::DegenerateKeys),
    }
}

/// Whether a text is one of the two descriptor texts of the protocol, over
/// keys that are points of the curve.
pub open spec fn is_protocol_text(text: Seq<char>) -> bool {
    ||| exists|maker: Seq<u8>, taker: Seq<u8>|
        point_valid(maker) && point_valid(taker) && text == #[trigger] lock_descriptor_text(
            maker,
            taker,
        )
    ||| exists|maker: CommitKeys, taker: CommitKeys|
        all_points(commit_keys(maker, taker)) && text == #[trigger] commit_descriptor_text(
            maker,
            taker,
        )
}

/// Reads a descriptor of the protocol from its text.
fn describe(text: String) -> (descriptor: Result<Descriptor, Error>)
    requires
        is_protocol_text(text@),
    ensures
        match descriptor {
            Ok(d) => described(text@) == Ok::<DescriptorView, Error>(d.deep_view()) && d.wf(),
            Err(e) => described(text@) == Err::<DescriptorView, Error>(e),
        },
{
    let script_pubkey = descriptor_script_pubkey(text.as_str());
    let script_code = descriptor_script_code(text.as_str());
    match (script_pubkey, script_code) {
        (Some(script_pubkey), Some(script_code)) => Ok(Descriptor { text, script_pubkey, script_code }),
        _ => Err(Error::DegenerateKeys),
    }
}

/// The text of the lock descriptor: both keys must sign.
pub open spec fn lock_descriptor_text(maker: Seq<u8>, taker: Seq<u8>) -> Seq<char> {
    "wsh(c:and_v(v:pk("@ + hex_of(maker) + "),pk_k("@ + hex_of(taker) + ")))"@
}

/// The lock descriptor of two keys: the keys must be points and differ.
pub open spec fn lock_descriptor_of(maker: PublicKey, taker: PublicKey) -> Result<
    DescriptorView,
    Error,
> {
    if !distinct(seq![maker, taker]) || !all_points(seq![maker, taker]) {
        Err(Error::DegenerateKeys)
    } else {
        described(lock_descriptor_text(maker@, taker@))
    }
}

/// The condition under which the lock output is spent: a signature of each
/// party. The text is the same whoever writes it, so both parties derive the
/// same scripts.
pub fn lock_descriptor(maker_pk: PublicKey, taker_pk: PublicKey) -> (descriptor: Result<
    Descriptor,
    Error,
>)
    ensures
        match descriptor {
            Ok(d) => lock_descriptor_of(maker_pk, taker_pk) == Ok::<DescriptorView, Error>(
                d.deep_view(),
            ) && d.wf(),
            Err(e) => lock_descriptor_of(maker_pk, taker_pk) == Err::<DescriptorView, Error>(e),
        },
{
    let keys = vec![maker_pk, taker_pk];
    assert(keys@ =~= seq![maker_pk, taker_pk]);
    if !all_distinct(&keys) || !all_valid(&keys) {
        return Err(Error::DegenerateKeys);
    }
    let mut text = String::from_str("wsh(c:and_v(v:pk(");
    text.append(to_hex(maker_pk.bytes.as_slice()).as_str());
    text.append("),pk_k(");
    text.append(to_hex(taker_pk.bytes.as_slice()).as_str());
    text.append(")))");
    proof {
        assert(point_valid(keys@[0]@) && point_valid(keys@[1]@));
        assert(text@ == lock_descriptor_text(maker_pk@, taker_pk@));
    }
    describe(text)
}

/// The keys of one party in a commit descriptor: its identity key, and the
/// revocation and publish keys of the current version of the contract.
#[derive(Clone, Copy, Debug)]
pub struct CommitKeys {
    pub identity: PublicKey,
    pub revocation: PublicKey,
    pub publish: PublicKey,
}

/// The hexadecimal text of the hash of a key.
pub open spec fn key_hash_text(key: Seq<u8>) -> Seq<char> {
    hex_of(hash160_digest(key))
}

/// The text of the commit descriptor. Either both parties sign, or one party
/// signs with its own key and with the publish and revocation keys of the
/// other.
pub open spec fn commit_descriptor_text(maker: CommitKeys, taker: CommitKeys) -> Seq<char> {
    "wsh(c:andor(pk("@ + hex_of(maker.identity@) + "),pk_k("@ + hex_of(taker.identity@)
        + "),or_i(and_v(v:pkh("@ + key_hash_text(maker.identity@) + "),and_v(v:pkh("@
        + key_hash_text(taker.publish@) + "),pk_h("@ + key_hash_text(taker.revocation@)
        + "))),and_v(v:pkh("@ + key_hash_text(taker.identity@) + "),and_v(v:pkh("@
        + key_hash_text(maker.publish@) + "),pk_h("@ + key_hash_text(maker.revocation@)
        + "))))))"@
}

/// The six keys of a commit descriptor.
pub open spec fn commit_keys(maker: CommitKeys, taker: CommitKeys) -> Seq<PublicKey> {
    seq![
        maker.identity,
        maker.revocation,
        maker.publish,
        taker.identity,
        taker.revocation,
        taker.publish,
    ]
}

/// The commit descriptor of two parties: the six keys must be points and no
/// two of them the same.
pub open spec fn commit_descriptor_of(maker: CommitKeys, taker: CommitKeys) -> Result<
    DescriptorView,
    Error,
> {
    if !distinct(commit_keys(maker, taker)) || !all_points(commit_keys(maker, taker)) {
        Err(Error::DegenerateKeys)
    } else {
        described(commit_descriptor_text(maker, taker))
    }
}

fn append_key_hash(text: &mut String, key: &PublicKey)
    ensures
        final(text)@ == old(text)@ + key_hash_text(key@),
{
    let hash = hash160(key.bytes.as_slice());
    text.append(to_hex(hash.as_slice()).as_str());
}

/// The condition under which the commit output is spent. It has two branches:
/// settlement, with a signature of each party's identity key; and punishment,
/// with a party's own signature and signatures under the publish and the
/// revocation key of the other party.
pub fn commit_descriptor(maker: CommitKeys, taker: CommitKeys) -> (descriptor: Result<
    Descriptor,
    Error,
>)
    ensures
        match descriptor {
            Ok(d) => commit_descriptor_of(maker, taker) == Ok::<DescriptorView, Error>(
                d.deep_view(),
            ) && d.wf(),
            Err(e) => commit_descriptor_of(maker, taker) == Err::<DescriptorView, Error>(e),
        },
{
    let keys = vec![
        maker.identity,
        maker.revocation,
        maker.publish,
        taker.identity,
        taker.revocation,
        taker.publish,
    ];
    assert(keys@ =~= commit_keys(maker, taker));
    if !all_distinct(&keys) || !all_valid(&keys) {
        return Err(Error::DegenerateKeys);
    }
    let mut text = String::from_str("wsh(c:andor(pk(");
    text.append(to_hex(maker.identity.bytes.as_slice()).as_str());
    text.append("),pk_k(");
    text.append(to_hex(taker.identity.bytes.as_slice()).as_str());
    text.append("),or_i(and_v(v:pkh(");
    append_key_hash(&mut text, &maker.identity);
    text.append("),and_v(v:pkh(");
    append_key_hash(&mut text, &taker.publish);
    text.append("),pk_h(");
    append_key_hash(&mut text, &taker.revocation);
    text.append("))),and_v(v:pkh(");
    append_key_hash(&mut text, &taker.identity);
    text.append("),and_v(v:pkh(");
    append_key_hash(&mut text, &maker.publish);
    text.append("),pk_h(");
    append_key_hash(&mut text, &maker.revocation);
    text.append("))))))");
    proof {
        assert(text@ == commit_descriptor_text(maker, taker));
    }
    describe(text)
}

} // verus!
