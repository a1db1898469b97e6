//! The keys that sign a transaction.
//!
//! Keys are those of the `activeledger` crate. The verifier cannot look
//! inside one, so what the builders read of a key (its name, its public PEM)
//! is named here, and the calls into the crate are kept in small functions
//! whose contracts are taken on trust.

use vstd::prelude::*;
use activeledger::key::{EllipticCurve, KeyError, RSA};
use crate::error::TxBuilderError;

verus! {

/// `activeledger::key::EllipticCurve`, opaque to the verifier.
#[verifier::external_type_specification]
#[verifier::external_body]
pub struct ExEllipticCurve(activeledger::key::EllipticCurve);

/// `activeledger::key::RSA`, opaque to the verifier.
#[verifier::external_type_specification]
#[verifier::external_body]
pub struct ExRsa(activeledger::key::RSA);

/// `activeledger::key::KeyError`, opaque to the verifier.
#[verifier::external_type_specification]
#[verifier::external_body]
pub struct ExKeyError(activeledger::key::KeyError);

/// The `name` field of an elliptic-curve key.
pub uninterp spec fn ec_key_name(key: EllipticCurve) -> Seq<char>;

/// The public PEM that `EllipticCurve::get_pem` hands out for a key, or
/// `None` where that call fails.
pub uninterp spec fn ec_key_public_pem(key: EllipticCurve) -> Option<Seq<char>>;

/// Whether `signature` is one that `EllipticCurve::sign` can return for
/// `data` under `key`. Signing draws on chance: the same key and data have
/// many signatures.
pub uninterp spec fn ec_key_signs(key: EllipticCurve, data: Seq<char>, signature: Seq<char>) -> bool;

/// The `name` field of an RSA key.
pub uninterp spec fn rsa_key_name(key: RSA) -> Seq<char>;

/// The public PEM that `RSA::get_pem` hands out for a key, or `None` where
/// that call fails.
pub uninterp spec fn rsa_key_public_pem(key: RSA) -> Option<Seq<char>>;

/// Whether `signature` is one that `RSA::sign` can return for `data` under
/// `key`.
pub uninterp spec fn rsa_key_signs(key: RSA, data: Seq<char>, signature: Seq<char>) -> bool;

/// Reads the public field `name` of an `EllipticCurve`.
#[verifier::external_body]
pub(crate) fn ec_name(key: &EllipticCurve) -> (name: String)
    ensures
        name@ == ec_key_name(*key),
{
    key.name.clone()
}

/// Reads the public field `name` of an `RSA`.
#[verifier::external_body]
pub(crate) fn rsa_name(key: &RSA) -> (name: String)
    ensures
        name@ == rsa_key_name(*key),
{
    key.name.clone()
}

/// `EllipticCurve::get_pem`, of which the public half is kept. The call
/// decodes the bytes that the key holds, so it gives the same answer each
/// time.
#[verifier::external_body]
pub(crate) fn ec_public_pem(key: &EllipticCurve) -> (result: Result<String, KeyError>)
    ensures
        match result {
            Ok(pem) => ec_key_public_pem(*key) == Some(pem@),
            Err(_) => ec_key_public_pem(*key) is None,
        },
{
    key.get_pem().map(|pem| pem.public)
}

/// `RSA::get_pem`, of which the public half is kept. The call decodes the
/// bytes that the key holds, so it gives the same answer each time.
#[verifier::external_body]
pub(crate) fn rsa_public_pem(key: &RSA) -> (result: Result<String, KeyError>)
    ensures
        match result {
            Ok(pem) => rsa_key_public_pem(*key) == Some(pem@),
            Err(_) => rsa_key_public_pem(*key) is None,
        },
{
    key.get_pem().map(|pem| pem.public)
}

/// `EllipticCurve::sign`. Of the signature no more is claimed than that this
/// call made it, for this key and this data: the same key and data may give
/// another one each time, and the call may fail.
#[verifier::external_body]
pub(crate) fn ec_sign(key: &EllipticCurve, data: &str) -> (result: Result<String, KeyError>)
    ensures
        result matches Ok(signature) ==> ec_key_signs(*key, data@, signature@),
{
    key.sign(data)
}

/// `RSA::sign`. Of the signature no more is claimed than that this call made
/// it, for this key and this data; the call may fail.
#[verifier::external_body]
pub(crate) fn rsa_sign(key: &RSA, data: &str) -> (result: Result<String, KeyError>)
    ensures
        result matches Ok(signature) ==> rsa_key_signs(*key, data@, signature@),
{
    key.sign(data)
}

/// `EllipticCurve::new`: a fresh key, which carries the name it was asked
/// for.
#[verifier::external_body]
pub(crate) fn ec_generate(name: &str) -> (result: Result<EllipticCurve, KeyError>)
    ensures
        result matches Ok(key) ==> ec_key_name(key) == name@,
{
    EllipticCurve::new(name)
}

/// `RSA::new`: a fresh key, which carries the name it was asked for.
#[verifier::external_body]
pub(crate) fn rsa_generate(name: &str) -> (result: Result<RSA, KeyError>)
    ensures
        result matches Ok(key) ==> rsa_key_name(key) == name@,
{
    RSA::new(name)
}

/// `EllipticCurve::clone`, which `derive` wrote: the copy equals the key.
pub assume_specification[ <activeledger::key::EllipticCurve as Clone>::clone ](
    key: &activeledger::key::EllipticCurve,
) -> (copy: activeledger::key::EllipticCurve)
    ensures
        copy == *key,
;

/// `RSA::clone`, which `derive` wrote: the copy equals the key.
pub assume_specification[ <activeledger::key::RSA as Clone>::clone ](
    key: &activeledger::key::RSA,
) -> (copy: activeledger::key::RSA)
    ensures
        copy == *key,
;

/// A key that signs transaction packets.
pub enum Key {
    Rsa(RSA),
    Ec(EllipticCurve),
}

/// The kind of key to generate for onboarding.
pub enum KeyType {
    RSA,
    EC,
}

impl Key {
    /// The key's own name.
    pub open spec fn name(self) -> Seq<char> {
        match self {
            Key::Rsa(key) => rsa_key_name(key),
            Key::Ec(key) => ec_key_name(key),
        }
    }

    /// The key's public PEM, where it can be had.
    pub open spec fn public_pem(self) -> Option<Seq<char>> {
        match self {
            Key::Rsa(key) => rsa_key_public_pem(key),
            Key::Ec(key) => ec_key_public_pem(key),
        }
    }

    /// Whether `signature` is one that the key can make for `data`.
    pub open spec fn signs(self, data: Seq<char>, signature: Seq<char>) -> bool {
        match self {
            Key::Rsa(key) => rsa_key_signs(key, data, signature),
            Key::Ec(key) => ec_key_signs(key, data, signature),
        }
    }

    /// The label that the ledger knows the key's kind by.
    pub open spec fn label(self) -> Seq<char> {
        match self {
            Key::Rsa(_) => "rsa"@,
            Key::Ec(_) => "secp256k1"@,
        }
    }

    /// The error reported when the key fails to sign.
    pub open spec fn sign_error(self) -> TxBuilderError {
        match self {
            Key::Rsa(_) => TxBuilderError::KeyError(7001),
            Key::Ec(_) => TxBuilderError::KeyError(7000),
        }
    }
}

impl Clone for Key {
    /// The copy equals the key.
    fn clone(&self) -> (copy: Self)
        ensures
            copy == *self,
    {
        match self {
            Key::Rsa(key) => Key::Rsa(key.clone()),
            Key::Ec(key) => Key::Ec(key.clone()),
        }
    }
}

} // verus!
