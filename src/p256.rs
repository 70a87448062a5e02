use vstd::prelude::*;

use openssl::bn::BigNum;
use openssl::ec::{EcGroup, EcKey};
use openssl::ecdsa::EcdsaSig;
use openssl::error::ErrorStack;
use openssl::nid::Nid;
use openssl::pkey::Public;

use crate::error::SsvError;

verus! {

#[verifier::external_type_specification]
#[verifier::external_body]
pub struct ExErrorStack(ErrorStack);

#[verifier::external_type_specification]
#[verifier::external_body]
pub struct ExEcdsaSig(EcdsaSig);

#[verifier::external_type_specification]
#[verifier::external_body]
pub struct ExPublic(Public);

#[verifier::external_type_specification]
#[verifier::external_body]
#[verifier::reject_recursive_types(T)]
pub struct ExEcKey<T>(EcKey<T>);

/// OpenSSL takes `x` and `y`, read as big-endian unsigned integers, for the
/// affine coordinates of a public key on the P-256 curve.
pub uninterp spec fn p256_point_accepted(x: Seq<u8>, y: Seq<u8>) -> bool;

/// OpenSSL reads `der` as a DER-encoded ECDSA signature.
pub uninterp spec fn ecdsa_der_accepted(der: Seq<u8>) -> bool;

/// The ECDSA signature `der` is valid for `digest` under the P-256 public key
/// with affine coordinates `x` and `y`.
pub uninterp spec fn ecdsa_p256_valid(x: Seq<u8>, y: Seq<u8>, digest: Seq<u8>, der: Seq<u8>) -> bool;

/// A public key on the P-256 curve, with the coordinates it was built from.
pub struct P256PublicKey {
    x: Vec<u8>,
    y: Vec<u8>,
    key: EcKey<Public>,
}

impl P256PublicKey {
    /// The big-endian X coordinate.
    pub closed spec fn x_coordinate(&self) -> Seq<u8> {
        self.x@
    }

    /// The big-endian Y coordinate.
    pub closed spec fn y_coordinate(&self) -> Seq<u8> {
        self.y@
    }
}

/// An ECDSA signature, with the DER bytes it was read from.
pub struct EcdsaSignature {
    der: Vec<u8>,
    sig: EcdsaSig,
}

impl EcdsaSignature {
    /// The DER encoding of the signature.
    pub closed spec fn der(&self) -> Seq<u8> {
        self.der@
    }
}

/// Relies on openssl's EcKey::from_public_key_affine_coordinates, which fails
/// unless the point lies on the curve. The curve comes from
/// EcGroup::from_curve_name (prime256v1) and each coordinate from
/// BigNum::from_slice, which reads bytes as a big-endian unsigned integer and
/// panics on more than `i32::MAX` of them.
#[verifier::external_body]
fn key_from_affine_coordinates(x: &[u8], y: &[u8]) -> (r: Result<P256PublicKey, ErrorStack>)
    requires
        x@.len() <= i32::MAX,
        y@.len() <= i32::MAX,
    ensures
        r is Ok <==> p256_point_accepted(x@, y@),
        r is Ok ==> r->Ok_0.x_coordinate() == x@ && r->Ok_0.y_coordinate() == y@,
{
    let group = EcGroup::from_curve_name(Nid::X9_62_PRIME256V1)?;
    let bx = BigNum::from_slice(x)?;
    let by = BigNum::from_slice(y)?;
    let key = EcKey::from_public_key_affine_coordinates(&group, &bx, &by)?;
    Ok(P256PublicKey { x: x.to_vec(), y: y.to_vec(), key })
}

/// Relies on openssl's EcdsaSig::from_der, which reads a DER-encoded ECDSA
/// signature.
#[verifier::external_body]
fn signature_from_der(der: &[u8]) -> (r: Result<EcdsaSignature, ErrorStack>)
    ensures
        r is Ok <==> ecdsa_der_accepted(der@),
        r is Ok ==> r->Ok_0.der() == der@,
{
    let sig = EcdsaSig::from_der(der)?;
    Ok(EcdsaSignature { der: der.to_vec(), sig })
}

/// Relies on openssl's EcdsaSigRef::verify: `Ok(true)` where the signature is
/// valid for the digest under the key, `Ok(false)` where it is not, an error
/// where the engine fails. It panics on data longer than `i32::MAX` bytes.
#[verifier::external_body]
fn ecdsa_verify(sig: &EcdsaSignature, digest: &[u8], key: &P256PublicKey) -> (r: Result<bool, ErrorStack>)
    requires
        digest@.len() <= i32::MAX,
    ensures
        r is Ok ==> r->Ok_0 == ecdsa_p256_valid(
            key.x_coordinate(),
            key.y_coordinate(),
            digest@,
            sig.der(),
        ),
{
    sig.sig.verify(digest, &key.key)
}

/// Builds the P-256 public key with big-endian affine coordinates `x` and `y`;
/// `InvalidPublicKey` where they are no point of the curve.
pub fn public_key_from_coordinates(x: &[u8], y: &[u8]) -> (r: Result<P256PublicKey, SsvError>)
    requires
        x@.len() <= i32::MAX,
        y@.len() <= i32::MAX,
    ensures
        p256_point_accepted(x@, y@) ==> r is Ok && r->Ok_0.x_coordinate() == x@
            && r->Ok_0.y_coordinate() == y@,
        !p256_point_accepted(x@, y@) ==> r == Err::<P256PublicKey, SsvError>(
            SsvError::InvalidPublicKey,
        ),
{
    match key_from_affine_coordinates(x, y) {
        Ok(key) => Ok(key),
        Err(_) => Err(SsvError::InvalidPublicKey),
    }
}

/// Reads a DER-encoded ECDSA signature; `MalformedSignature` where `der` is
/// none.
pub fn ecdsa_signature_from_der(der: &[u8]) -> (r: Result<EcdsaSignature, SsvError>)
    ensures
        ecdsa_der_accepted(der@) ==> r is Ok && r->Ok_0.der() == der@,
        !ecdsa_der_accepted(der@) ==> r == Err::<EcdsaSignature, SsvError>(
            SsvError::MalformedSignature,
        ),
{
    match signature_from_der(der) {
        Ok(sig) => Ok(sig),
        Err(_) => Err(SsvError::MalformedSignature),
    }
}

/// Checks `sig` against the SHA-256 `digest` under `key`: whether it is valid,
/// or `VerificationEngineError` where the engine fails.
pub fn verify_digest(sig: &EcdsaSignature, digest: &[u8], key: &P256PublicKey) -> (r: Result<bool, SsvError>)
    requires
        digest@.len() <= i32::MAX,
    ensures
        r == Ok::<bool, SsvError>(
            ecdsa_p256_valid(key.x_coordinate(), key.y_coordinate(), digest@, sig.der()),
        ) || r == Err::<bool, SsvError>(SsvError::VerificationEngineError),
{
    match ecdsa_verify(sig, digest, key) {
        Ok(valid) => Ok(valid),
        Err(_) => Err(SsvError::VerificationEngineError),
    }
}

} // verus!
