use vstd::prelude::*;
use vstd::string::StringSliceAdditionalSpecFns;
use vstd::utf8::{encode_utf8, valid_utf8};

use sha2::Digest;

verus! {

#[verifier::external_type_specification]
#[verifier::external_body]
pub struct ExBase64DecodeError(base64::DecodeError);

#[verifier::external_type_specification]
#[verifier::external_body]
pub struct ExDataEncodingDecodeError(data_encoding::DecodeError);

#[verifier::external_type_specification]
#[verifier::external_body]
pub struct ExFromUtf8Error(std::string::FromUtf8Error);

/// What standard base64 (with padding) decodes `text` to, or `None` where
/// `text` is not such base64.
pub uninterp spec fn base64_standard_decoded(text: Seq<u8>) -> Option<Seq<u8>>;

/// What base64url without padding decodes `text` to, or `None` where `text` is
/// not such base64url.
pub uninterp spec fn base64url_nopad_decoded(text: Seq<u8>) -> Option<Seq<u8>>;

/// The SHA-256 digest of `data`.
pub uninterp spec fn sha256_digest(data: Seq<u8>) -> Seq<u8>;

/// The value of the hexadecimal digit `b` (either case).
pub open spec fn hex_value(b: u8) -> Option<u8> {
    if 48 <= b <= 57 {
        Some((b - 48) as u8)
    } else if 65 <= b <= 70 {
        Some((b - 55) as u8)
    } else if 97 <= b <= 102 {
        Some((b - 87) as u8)
    } else {
        None
    }
}

/// `bytes` with each `%` that two hexadecimal digits follow replaced by the byte
/// they write; any other `%` stays as it is.
pub open spec fn percent_decoded(bytes: Seq<u8>) -> Seq<u8>
    decreases bytes.len(),
{
    if bytes.len() == 0 {
        seq![]
    } else if bytes[0] == 37 && bytes.len() >= 3 && hex_value(bytes[1]) is Some && hex_value(
        bytes[2],
    ) is Some {
        seq![(hex_value(bytes[1])->0 * 16 + hex_value(bytes[2])->0) as u8] + percent_decoded(
            bytes.subrange(3, bytes.len() as int),
        )
    } else {
        seq![bytes[0]] + percent_decoded(bytes.drop_first())
    }
}

/// Relies on base64::decode, which decodes standard base64 and fails on other
/// text; its result depends on the text alone.
#[verifier::external_body]
pub(crate) fn decode_base64(text: &[u8]) -> (r: Result<Vec<u8>, base64::DecodeError>)
    ensures
        match r {
            Ok(v) => base64_standard_decoded(text@) == Some(v@),
            Err(_) => base64_standard_decoded(text@) is None,
        },
{
    base64::decode(text)
}

/// Relies on data_encoding::BASE64URL_NOPAD.decode, which decodes base64url
/// without padding and fails on other text; its result depends on the text alone.
#[verifier::external_body]
pub(crate) fn decode_base64url_nopad(text: &[u8]) -> (r: Result<Vec<u8>, data_encoding::DecodeError>)
    ensures
        match r {
            Ok(v) => base64url_nopad_decoded(text@) == Some(v@),
            Err(_) => base64url_nopad_decoded(text@) is None,
        },
{
    data_encoding::BASE64URL_NOPAD.decode(text)
}

/// Relies on urlparse::unquote: it replaces each `%` and two hexadecimal digits
/// by the byte they write, keeps any other `%`, and hands the bytes to
/// `String::from_utf8`, which fails unless they are UTF-8.
#[verifier::external_body]
pub(crate) fn url_unquote(text: &str) -> (r: Result<String, std::string::FromUtf8Error>)
    ensures
        match r {
            Ok(s) => valid_utf8(percent_decoded(text.spec_bytes())) && encode_utf8(s@)
                == percent_decoded(text.spec_bytes()),
            Err(_) => !valid_utf8(percent_decoded(text.spec_bytes())),
        },
{
    urlparse::unquote(text)
}

/// Relies on sha2::Sha256::digest: the SHA-256 digest of the data, 32 bytes long.
#[verifier::external_body]
pub(crate) fn sha256(data: &[u8]) -> (r: Vec<u8>)
    ensures
        r@ == sha256_digest(data@),
        r@.len() == 32,
{
    sha2::Sha256::digest(data).to_vec()
}

} // verus!
