use vstd::prelude::*;

use vstd::string::StringSliceAdditionalSpecFns;
use vstd::utf8::{
    encode_utf8_valid_utf8, is_char_boundary, is_char_boundary_iff_not_is_continuation_byte,
};

use crate::error::SsvError;

verus! {

/// The ASCII bytes of `&signature`, which opens the signature parameter.
pub open spec fn signature_marker() -> Seq<u8> {
    seq![38u8, 115, 105, 103, 110, 97, 116, 117, 114, 101]
}

/// The ASCII bytes of `&key_id`, which opens the key identifier parameter.
pub open spec fn key_id_marker() -> Seq<u8> {
    seq![38u8, 107, 101, 121, 95, 105, 100]
}

/// The ASCII byte of `=`, which follows a parameter's name.
pub open spec fn equals_sign() -> u8 {
    61u8
}

/// `text` holds `=` at position `i`.
pub open spec fn equals_at(text: Seq<u8>, i: int) -> bool {
    0 <= i < text.len() && text[i] == equals_sign()
}

/// The ASCII byte of `&`, which ends a parameter.
pub open spec fn separator() -> Seq<u8> {
    seq![38u8]
}

/// `pattern` stands in `text` at position `i`.
pub open spec fn occurs_at(text: Seq<u8>, pattern: Seq<u8>, i: int) -> bool {
    &&& 0 <= i
    &&& i + pattern.len() <= text.len()
    &&& text.subrange(i, i + pattern.len()) == pattern
}

/// The first position at or after `from` where `pattern` stands in `text`.
pub open spec fn find_from(text: Seq<u8>, pattern: Seq<u8>, from: int) -> Option<int>
    decreases text.len() + 1 - from,
{
    if from < 0 || from + pattern.len() > text.len() {
        None
    } else if occurs_at(text, pattern, from) {
        Some(from)
    } else {
        find_from(text, pattern, from + 1)
    }
}

/// The three parts of a query string, as byte strings: the signed message (all
/// that precedes the first `&signature`), the signature text (after its `=`,
/// up to the following `&key_id`), and the key identifier text (after its `=`,
/// up to the next `&` or the end). A query with no `&signature`, none followed
/// by `=`, or no `&key_id` after it (also one that names the key identifier
/// first) is malformed; a `&key_id` not followed by `=` names no valid key
/// identifier.
pub open spec fn parts_of(query: Seq<u8>) -> Result<(Seq<u8>, Seq<u8>, Seq<u8>), SsvError> {
    match find_from(query, signature_marker(), 0) {
        None => Err(SsvError::MalformedQuery),
        Some(s) => if !equals_at(query, s + signature_marker().len()) {
            Err(SsvError::MalformedQuery)
        } else {
            let sig_start = s + signature_marker().len() + 1;
            match find_from(query, key_id_marker(), sig_start) {
                None => Err(SsvError::MalformedQuery),
                Some(k) => if !equals_at(query, k + key_id_marker().len()) {
                    Err(SsvError::InvalidKeyId)
                } else {
                    let id_start = k + key_id_marker().len() + 1;
                    let id_end = match find_from(query, separator(), id_start) {
                        Some(e) => e,
                        None => query.len() as int,
                    };
                    Ok(
                        (
                            query.subrange(0, s),
                            query.subrange(sig_start, k),
                            query.subrange(id_start, id_end),
                        ),
                    )
                },
            }
        },
    }
}

/// A query string taken apart; each field borrows from the query string.
pub struct QueryParts<'a> {
    /// The signed message, not yet URL-decoded.
    pub message: &'a str,
    /// The signature text (base64url without padding).
    pub signature: &'a [u8],
    /// The key identifier text.
    pub key_id: &'a [u8],
}

fn signature_marker_bytes() -> (m: Vec<u8>)
    ensures
        m@ == signature_marker(),
{
    let m = vec![38u8, 115, 105, 103, 110, 97, 116, 117, 114, 101];
    assert(m@ =~= signature_marker());
    m
}

fn key_id_marker_bytes() -> (m: Vec<u8>)
    ensures
        m@ == key_id_marker(),
{
    let m = vec![38u8, 107, 101, 121, 95, 105, 100];
    assert(m@ =~= key_id_marker());
    m
}

fn separator_bytes() -> (m: Vec<u8>)
    ensures
        m@ == separator(),
{
    let m = vec![38u8];
    assert(m@ =~= separator());
    m
}

/// Whether `pattern` stands in `text` at position `i`.
fn matches_at(text: &[u8], pattern: &[u8], i: usize) -> (r: bool)
    requires
        i + pattern@.len() <= text@.len(),
    ensures
        r == occurs_at(text@, pattern@, i as int),
{
    let n = text.len();
    let mut j: usize = 0;
    while j < pattern.len()
        invariant
            n == text@.len(),
            i + pattern@.len() <= text@.len(),
            j <= pattern@.len(),
            forall|t: int| 0 <= t < j ==> text@[i + t] == pattern@[t],
        decreases pattern@.len() - j,
    {
        if text[i + j] != pattern[j] {
            assert(text@.subrange(i as int, i + pattern@.len())[j as int] != pattern@[j as int]);
            return false;
        }
        j = j + 1;
    }
    assert(text@.subrange(i as int, i + pattern@.len()) =~= pattern@);
    true
}

/// The first position at or after `from` where `pattern` stands in `text`.
fn find_pattern(text: &[u8], pattern: &[u8], from: usize) -> (r: Option<usize>)
    requires
        pattern@.len() > 0,
    ensures
        match r {
            Some(i) => find_from(text@, pattern@, from as int) == Some(i as int),
            None => find_from(text@, pattern@, from as int) is None,
        },
{
    if pattern.len() > text.len() {
        return None;
    }
    let n = text.len();
    let last = n - pattern.len();
    let mut i = from;
    while i <= last
        invariant
            n == text@.len(),
            from <= i,
            last == text@.len() - pattern@.len(),
            last < text@.len(),
            find_from(text@, pattern@, from as int) == find_from(text@, pattern@, i as int),
        decreases last + 1 - i,
    {
        if matches_at(text, pattern, i) {
            return Some(i);
        }
        i = i + 1;
    }
    None
}

/// Takes a query string apart into the signed message, the signature text and
/// the key identifier text, or fails with the error, as `parts_of` says.
pub fn decompose<'a>(query: &'a str) -> (r: Result<QueryParts<'a>, SsvError>)
    ensures
        match parts_of(query.spec_bytes()) {
            Err(e) => r == Err::<QueryParts<'a>, SsvError>(e),
            Ok(parts) => {
                &&& r is Ok
                &&& r->Ok_0.message.spec_bytes() == parts.0
                &&& r->Ok_0.signature@ == parts.1
                &&& r->Ok_0.key_id@ == parts.2
            },
        },
{
    let bytes = query.as_bytes();
    let n = bytes.len();
    let sig_marker = signature_marker_bytes();
    let key_marker = key_id_marker_bytes();
    let sep = separator_bytes();
    let s = match find_pattern(bytes, sig_marker.as_slice(), 0) {
        Some(s) => s,
        None => return Err(SsvError::MalformedQuery),
    };
    proof {
        lemma_find_from_occurs(bytes@, signature_marker(), 0);
    }
    let name_end = s + sig_marker.len();
    if name_end >= n || bytes[name_end] != 61 {
        return Err(SsvError::MalformedQuery);
    }
    let sig_start = name_end + 1;
    let k = match find_pattern(bytes, key_marker.as_slice(), sig_start) {
        Some(k) => k,
        None => return Err(SsvError::MalformedQuery),
    };
    proof {
        lemma_find_from_occurs(bytes@, key_id_marker(), sig_start as int);
    }
    let id_name_end = k + key_marker.len();
    if id_name_end >= n || bytes[id_name_end] != 61 {
        return Err(SsvError::InvalidKeyId);
    }
    let id_start = id_name_end + 1;
    let id_end = match find_pattern(bytes, sep.as_slice(), id_start) {
        Some(e) => e,
        None => n,
    };
    proof {
        lemma_find_from_occurs(bytes@, separator(), id_start as int);
        encode_utf8_valid_utf8(query@);
        assert(bytes@[s as int] == signature_marker()[0]);
        is_char_boundary_iff_not_is_continuation_byte(bytes@, s as int);
    }
    let (message, _) = query.split_at(s);
    Ok(
        QueryParts {
            message,
            signature: &bytes[sig_start..k],
            key_id: &bytes[id_start..id_end],
        },
    )
}

/// What `find_from` returns is an occurrence at or after `from`.
pub proof fn lemma_find_from_occurs(text: Seq<u8>, pattern: Seq<u8>, from: int)
    ensures
        match find_from(text, pattern, from) {
            Some(i) => from <= i && occurs_at(text, pattern, i),
            None => true,
        },
    decreases text.len() + 1 - from,
{
    if from < 0 || from + pattern.len() > text.len() {
    } else if occurs_at(text, pattern, from) {
    } else {
        lemma_find_from_occurs(text, pattern, from + 1);
    }
}

/// Searching a prefix of `text` finds what searching `text` finds, where that
/// occurrence lies wholly inside the prefix, and nothing otherwise.
pub proof fn lemma_find_from_prefix(text: Seq<u8>, pattern: Seq<u8>, from: int, len: int)
    requires
        0 <= len <= text.len(),
    ensures
        find_from(text.subrange(0, len), pattern, from) == (match find_from(text, pattern, from) {
            Some(i) => if i + pattern.len() <= len {
                Some(i)
            } else {
                None
            },
            None => None,
        }),
    decreases text.len() + 1 - from,
{
    let pre = text.subrange(0, len);
    lemma_find_from_occurs(text, pattern, from);
    if from < 0 || from + pattern.len() > len {
    } else {
        assert(pre.subrange(from, from + pattern.len()) =~= text.subrange(
            from,
            from + pattern.len(),
        ));
        if !occurs_at(text, pattern, from) {
            lemma_find_from_prefix(text, pattern, from + 1, len);
        }
    }
}

/// `pattern` stands nowhere in `text`, so no search finds it.
pub proof fn lemma_find_from_absent(text: Seq<u8>, pattern: Seq<u8>, from: int)
    requires
        forall|i: int| !occurs_at(text, pattern, i),
    ensures
        find_from(text, pattern, from) is None,
    decreases text.len() + 1 - from,
{
    if from < 0 || from + pattern.len() > text.len() {
    } else {
        assert(!occurs_at(text, pattern, from));
        lemma_find_from_absent(text, pattern, from + 1);
    }
}

} // verus!
