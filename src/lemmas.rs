use vstd::prelude::*;
use vstd::utf8::valid_utf8;

use crate::codec::{base64url_nopad_decoded, hex_value, percent_decoded, sha256_digest};
use crate::error::SsvError;
use crate::key_id::key_id_value;
use crate::p256::ecdsa_p256_valid;
use crate::query::{
    equals_at, equals_sign, find_from, key_id_marker, lemma_find_from_absent, lemma_find_from_occurs,
    lemma_find_from_prefix, occurs_at, parts_of, separator, signature_marker,
};
use crate::ssv::{callback_outcome, key_outcome, signature_outcome};

verus! {

/// A callback whose key is known and well-formed, whose message and signature
/// decode, and whose signature is valid for the message's digest under that
/// key, verifies as `true`.
pub proof fn lemma_valid_callback_verifies(query: Seq<u8>, keys: Map<u64, String>)
    requires
        parts_of(query) is Ok,
        key_outcome(parts_of(query)->Ok_0.2, keys) is Ok,
        signature_outcome(parts_of(query)->Ok_0.0, parts_of(query)->Ok_0.1) is Ok,
        ({
            let parts = parts_of(query)->Ok_0;
            let point = key_outcome(parts.2, keys)->Ok_0;
            let signed = signature_outcome(parts.0, parts.1)->Ok_0;
            ecdsa_p256_valid(point.0, point.1, signed.0, signed.1)
        }),
    ensures
        callback_outcome(query, keys) == Ok::<bool, SsvError>(true),
{
}

/// Changing the signed message of a callback that verifies to `true` or
/// `false`, into any message that still URL-decodes, brings no error of
/// decoding: the outcome is whether the same signature is valid for the new
/// message's digest under the same key.
pub proof fn lemma_altered_message_is_still_checked(
    query: Seq<u8>,
    altered: Seq<u8>,
    keys: Map<u64, String>,
)
    requires
        parts_of(query) is Ok,
        parts_of(altered) is Ok,
        parts_of(altered)->Ok_0.1 == parts_of(query)->Ok_0.1,
        parts_of(altered)->Ok_0.2 == parts_of(query)->Ok_0.2,
        callback_outcome(query, keys) is Ok,
        valid_utf8(percent_decoded(parts_of(altered)->Ok_0.0)),
    ensures
        ({
            let parts = parts_of(altered)->Ok_0;
            let point = key_outcome(parts.2, keys)->Ok_0;
            let der = base64url_nopad_decoded(parts.1)->Some_0;
            callback_outcome(altered, keys) == Ok::<bool, SsvError>(
                ecdsa_p256_valid(point.0, point.1, sha256_digest(percent_decoded(parts.0)), der),
            )
        }),
{
}

/// A query string in which `&signature` stands nowhere is a malformed query.
pub proof fn lemma_missing_signature_is_malformed(query: Seq<u8>, keys: Map<u64, String>)
    requires
        forall|i: int| !occurs_at(query, signature_marker(), i),
    ensures
        callback_outcome(query, keys) == Err::<bool, SsvError>(SsvError::MalformedQuery),
{
    lemma_find_from_absent(query, signature_marker(), 0);
}

/// A query string whose key identifier is absent from the key mapping gives
/// `KeyNotFound`.
pub proof fn lemma_unknown_key_is_not_found(query: Seq<u8>, keys: Map<u64, String>)
    requires
        parts_of(query) is Ok,
        key_id_value(parts_of(query)->Ok_0.2) is Some,
        !keys.contains_key(key_id_value(parts_of(query)->Ok_0.2)->Some_0),
    ensures
        callback_outcome(query, keys) == Err::<bool, SsvError>(SsvError::KeyNotFound),
{
}

/// The parts of a query string, put back together with `&signature=` and
/// `&key_id=`, make a prefix of it; taking that prefix apart gives the same
/// parts again.
pub proof fn lemma_parts_reassemble(query: Seq<u8>)
    requires
        parts_of(query) is Ok,
    ensures
        ({
            let (message, signature, key_id) = parts_of(query)->Ok_0;
            let rebuilt = message + signature_marker() + seq![equals_sign()] + signature
                + key_id_marker() + seq![equals_sign()] + key_id;
            &&& rebuilt.len() <= query.len()
            &&& rebuilt == query.subrange(0, rebuilt.len() as int)
            &&& parts_of(rebuilt) == parts_of(query)
        }),
{
    let (message, signature, key_id) = parts_of(query)->Ok_0;
    let rebuilt = message + signature_marker() + seq![equals_sign()] + signature + key_id_marker()
        + seq![equals_sign()] + key_id;
    let s = find_from(query, signature_marker(), 0)->Some_0;
    lemma_find_from_occurs(query, signature_marker(), 0);
    let sig_start = s + signature_marker().len() + 1;
    let k = find_from(query, key_id_marker(), sig_start)->Some_0;
    lemma_find_from_occurs(query, key_id_marker(), sig_start);
    let id_start = k + key_id_marker().len() + 1;
    lemma_find_from_occurs(query, separator(), id_start);
    let id_end = match find_from(query, separator(), id_start) {
        Some(e) => e,
        None => query.len() as int,
    };
    assert(rebuilt.len() == id_end);
    assert(rebuilt =~= query.subrange(0, id_end));
    lemma_find_from_prefix(query, signature_marker(), 0, id_end);
    lemma_find_from_prefix(query, key_id_marker(), sig_start, id_end);
    lemma_find_from_prefix(query, separator(), id_start, id_end);
    assert(rebuilt[s + signature_marker().len()] == query[s + signature_marker().len()]);
    assert(rebuilt[k + key_id_marker().len()] == query[k + key_id_marker().len()]);
    assert(rebuilt.subrange(0, s) =~= message);
    assert(rebuilt.subrange(sig_start, k) =~= signature);
    assert(rebuilt.subrange(id_start, id_end) =~= key_id);
}

/// A query string whose first `&signature` is not followed by `=` is a
/// malformed query, whatever comes after it.
pub proof fn lemma_signature_without_equals_is_malformed(query: Seq<u8>, keys: Map<u64, String>)
    requires
        find_from(query, signature_marker(), 0) is Some,
        !equals_at(query, find_from(query, signature_marker(), 0)->Some_0 + signature_marker().len()),
    ensures
        callback_outcome(query, keys) == Err::<bool, SsvError>(SsvError::MalformedQuery),
{
}

/// Taking the same query string apart twice gives the same parts, and checking
/// it twice against the same keys gives the same outcome.
pub proof fn lemma_outcome_is_determined(
    query: Seq<u8>,
    again: Seq<u8>,
    keys: Map<u64, String>,
    same_keys: Map<u64, String>,
)
    requires
        again == query,
        same_keys == keys,
    ensures
        parts_of(again) == parts_of(query),
        callback_outcome(again, same_keys) == callback_outcome(query, keys),
{
}

/// `%20` decodes to a space: after text without `%`, the escape becomes one
/// space byte and the rest is decoded on its own.
pub proof fn lemma_escaped_space_decodes(before: Seq<u8>, after: Seq<u8>)
    requires
        forall|i: int| 0 <= i < before.len() ==> before[i] != 37,
    ensures
        percent_decoded(before + seq![37u8, 50, 48] + after) == before + seq![32u8]
            + percent_decoded(after),
    decreases before.len(),
{
    let text = before + seq![37u8, 50, 48] + after;
    if before.len() == 0 {
        assert(text =~= seq![37u8, 50, 48] + after);
        assert(text.subrange(3, text.len() as int) =~= after);
        assert(hex_value(50) == Some(2u8));
        assert(hex_value(48) == Some(0u8));
        assert(before + seq![32u8] =~= seq![32u8]);
    } else {
        lemma_escaped_space_decodes(before.drop_first(), after);
        assert(text.drop_first() =~= before.drop_first() + seq![37u8, 50, 48] + after);
        assert(text[0] == before[0]);
        assert(seq![before[0]] + (before.drop_first() + seq![32u8] + percent_decoded(after))
            =~= before + seq![32u8] + percent_decoded(after));
    }
}

} // verus!
