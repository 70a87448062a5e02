//! Verification of server-side verification (SSV) callbacks of an ad-serving
//! platform: the callback's query string carries a message, an ECDSA P-256
//! signature over its SHA-256 digest, and the identifier of the signing key.
//!
//! `verify_ssv_callback` takes the query string apart (`query`), builds the
//! public key that the caller's key mapping holds under the key identifier
//! (`key_id`, `p256`), and checks the signature over the URL-decoded message
//! (`codec`, `p256`). `lemmas` states what follows for whole callbacks.
pub mod codec;
pub mod error;
pub mod key_id;
pub mod lemmas;
pub mod p256;
pub mod query;
pub mod ssv;

pub use error::SsvError;
pub use key_id::parse_key_id;
pub use p256::{
    ecdsa_signature_from_der, public_key_from_coordinates, verify_digest, EcdsaSignature,
    P256PublicKey,
};
pub use query::{decompose, QueryParts};
pub use ssv::{coordinates_from_key_bytes, reconstruct_key, verify_signature, verify_ssv_callback};
