use vstd::prelude::*;

verus! {

/// Why a callback could not be checked. A signature that does not match is no
/// error: verification then returns `Ok(false)`.
#[derive(Debug, Clone, Copy, PartialEq, Eq, Structural)]
pub enum SsvError {
    /// The `&signature` or the `&key_id` parameter is missing, `=` does not
    /// follow `&signature`, or they come in the wrong order.
    MalformedQuery,
    /// The key identifier is not an unsigned 64-bit decimal number, or `=`
    /// does not follow `&key_id`.
    InvalidKeyId,
    /// No public key is known under the key identifier. The caller may refresh
    /// its key set and try again.
    KeyNotFound,
    /// The stored public key is not standard base64, or holds fewer than 64 bytes.
    MalformedKey,
    /// The stored coordinates are not a point of the P-256 curve.
    InvalidPublicKey,
    /// The signed message does not URL-decode to UTF-8 text.
    MalformedMessage,
    /// The signature is not base64url without padding, or not a DER-encoded
    /// ECDSA signature.
    MalformedSignature,
    /// The ECDSA engine failed for a reason other than a mismatch.
    VerificationEngineError,
}

} // verus!
