use vstd::prelude::*;
use vstd::string::StringSliceAdditionalSpecFns;
use vstd::utf8::{encode_utf8, valid_utf8};

use std::collections::HashMap;

use crate::codec::{
    base64_standard_decoded, base64url_nopad_decoded, decode_base64, decode_base64url_nopad,
    percent_decoded, sha256, sha256_digest, url_unquote,
};
use crate::error::SsvError;
use crate::key_id::{key_id_value, parse_key_id};
use crate::p256::{
    ecdsa_der_accepted, ecdsa_p256_valid, ecdsa_signature_from_der, p256_point_accepted,
    public_key_from_coordinates, verify_digest, P256PublicKey,
};
use crate::query::{decompose, parts_of};

verus! {

broadcast use vstd::std_specs::hash::group_hash_axioms;

/// The big-endian X and Y coordinates that end a decoded public key: its last
/// 64 bytes, split in halves.
pub open spec fn key_point(bytes: Seq<u8>) -> (Seq<u8>, Seq<u8>) {
    (
        bytes.subrange(bytes.len() - 64, bytes.len() - 32),
        bytes.subrange(bytes.len() - 32, bytes.len() as int),
    )
}

/// The coordinates of the public key that `keys` holds under the identifier
/// written by `key_id`, or the first error met on the way there.
pub open spec fn key_outcome(key_id: Seq<u8>, keys: Map<u64, String>) -> Result<
    (Seq<u8>, Seq<u8>),
    SsvError,
> {
    match key_id_value(key_id) {
        None => Err(SsvError::InvalidKeyId),
        Some(id) => if !keys.contains_key(id) {
            Err(SsvError::KeyNotFound)
        } else {
            match base64_standard_decoded(encode_utf8(keys[id]@)) {
                None => Err(SsvError::MalformedKey),
                Some(bytes) => if bytes.len() < 64 {
                    Err(SsvError::MalformedKey)
                } else if !p256_point_accepted(key_point(bytes).0, key_point(bytes).1) {
                    Err(SsvError::InvalidPublicKey)
                } else {
                    Ok(key_point(bytes))
                },
            }
        },
    }
}

/// The digest of the URL-decoded message and the DER bytes of the signature,
/// or the first error met on the way there.
pub open spec fn signature_outcome(message: Seq<u8>, signature: Seq<u8>) -> Result<
    (Seq<u8>, Seq<u8>),
    SsvError,
> {
    let decoded = percent_decoded(message);
    if !valid_utf8(decoded) {
        Err(SsvError::MalformedMessage)
    } else {
        match base64url_nopad_decoded(signature) {
            None => Err(SsvError::MalformedSignature),
            Some(der) => if !ecdsa_der_accepted(der) {
                Err(SsvError::MalformedSignature)
            } else {
                Ok((sha256_digest(decoded), der))
            },
        }
    }
}

/// What checking the callback `query` against `keys` yields when the ECDSA
/// engine does not fail: the first error of taking the query apart, finding the
/// key and reading the signature, else whether the signature is valid.
pub open spec fn callback_outcome(query: Seq<u8>, keys: Map<u64, String>) -> Result<bool, SsvError> {
    match parts_of(query) {
        Err(e) => Err(e),
        Ok(parts) => match key_outcome(parts.2, keys) {
            Err(e) => Err(e),
            Ok(point) => match signature_outcome(parts.0, parts.1) {
                Err(e) => Err(e),
                Ok(signed) => Ok(ecdsa_p256_valid(point.0, point.1, signed.0, signed.1)),
            },
        },
    }
}

/// Splits a decoded public key into the X and Y coordinates of its last 64
/// bytes; `MalformedKey` where it is shorter.
pub fn coordinates_from_key_bytes(bytes: &[u8]) -> (r: Result<(Vec<u8>, Vec<u8>), SsvError>)
    ensures
        bytes@.len() < 64 ==> r == Err::<(Vec<u8>, Vec<u8>), SsvError>(SsvError::MalformedKey),
        bytes@.len() >= 64 ==> r is Ok && r->Ok_0.0@ == key_point(bytes@).0 && r->Ok_0.1@
            == key_point(bytes@).1,
{
    let n = bytes.len();
    if n < 64 {
        return Err(SsvError::MalformedKey);
    }
    let x = vstd::slice::slice_to_vec(&bytes[n - 64..n - 32]);
    let y = vstd::slice::slice_to_vec(&bytes[n - 32..n]);
    Ok((x, y))
}

/// Finds the public key named by the key identifier text `key_id` in
/// `public_keys` and builds it, as `key_outcome` says.
pub fn reconstruct_key(key_id: &[u8], public_keys: &HashMap<u64, String>) -> (r: Result<
    P256PublicKey,
    SsvError,
>)
    ensures
        match key_outcome(key_id@, public_keys@) {
            Err(e) => r == Err::<P256PublicKey, SsvError>(e),
            Ok(point) => r is Ok && r->Ok_0.x_coordinate() == point.0 && r->Ok_0.y_coordinate()
                == point.1,
        },
{
    let id = match parse_key_id(key_id) {
        Some(id) => id,
        None => return Err(SsvError::InvalidKeyId),
    };
    let encoded = match public_keys.get(&id) {
        Some(k) => k,
        None => return Err(SsvError::KeyNotFound),
    };
    let bytes = match decode_base64(encoded.as_str().as_bytes()) {
        Ok(b) => b,
        Err(_) => return Err(SsvError::MalformedKey),
    };
    let (x, y) = match coordinates_from_key_bytes(bytes.as_slice()) {
        Ok(point) => point,
        Err(e) => return Err(e),
    };
    public_key_from_coordinates(x.as_slice(), y.as_slice())
}

/// Checks the signature text `signature` over the message `message` under
/// `key`: URL-decodes the message, hashes it with SHA-256, reads the signature
/// as base64url without padding holding DER, and verifies, as
/// `signature_outcome` says.
pub fn verify_signature(message: &str, signature: &[u8], key: &P256PublicKey) -> (r: Result<
    bool,
    SsvError,
>)
    ensures
        match signature_outcome(message.spec_bytes(), signature@) {
            Err(e) => r == Err::<bool, SsvError>(e),
            Ok(signed) => r == Ok::<bool, SsvError>(
                ecdsa_p256_valid(key.x_coordinate(), key.y_coordinate(), signed.0, signed.1),
            ) || r == Err::<bool, SsvError>(SsvError::VerificationEngineError),
        },
{
    let decoded = match url_unquote(message) {
        Ok(text) => text,
        Err(_) => return Err(SsvError::MalformedMessage),
    };
    let digest = sha256(decoded.as_str().as_bytes());
    let der = match decode_base64url_nopad(signature) {
        Ok(der) => der,
        Err(_) => return Err(SsvError::MalformedSignature),
    };
    let sig = match ecdsa_signature_from_der(der.as_slice()) {
        Ok(sig) => sig,
        Err(e) => return Err(e),
    };
    verify_digest(&sig, digest.as_slice(), key)
}

/// Verifies an SSV callback: takes `query_string` apart, builds the public key
/// that `public_keys` holds under its key identifier, and checks the signature
/// over the message. The result is `callback_outcome`, unless the ECDSA engine
/// itself fails (`VerificationEngineError`). A signature that does not match
/// gives `Ok(false)`.
pub fn verify_ssv_callback(query_string: &str, public_keys: &HashMap<u64, String>) -> (r: Result<
    bool,
    SsvError,
>)
    ensures
        r == callback_outcome(query_string.spec_bytes(), public_keys@) || (callback_outcome(
            query_string.spec_bytes(),
            public_keys@,
        ) is Ok && r == Err::<bool, SsvError>(SsvError::VerificationEngineError)),
{
    let parts = match decompose(query_string) {
        Ok(parts) => parts,
        Err(e) => return Err(e),
    };
    let key = match reconstruct_key(parts.key_id, public_keys) {
        Ok(key) => key,
        Err(e) => return Err(e),
    };
    verify_signature(parts.message, parts.signature, &key)
}

} // verus!
