//! Fingerprinter: maps the fields of a request that decide its answer to a
//! cache key.
//!
//! The key is the MD5 digest, in lower-case hexadecimal, of the UTF-8 bytes
//! of the fields written one after another. Nothing separates the fields,
//! so two tuples whose fields concatenate to the same text share a key:
//! `("ab", "c")` and `("a", "bc")` do. Keys written by earlier versions of
//! the gateway stay valid this way; a caller that needs the fields kept
//! apart ends each with a character that cannot occur inside one.

use vstd::prelude::*;
use vstd::string::*;
use crate::text::{concat_all, decimal, decimal_text};

verus! {

/// The MD5 digest of `data`, sixteen bytes.
pub uninterp spec fn md5_digest(data: Seq<u8>) -> Seq<u8>;

/// `md5::compute`: the digest of `data`.
#[verifier::external_body]
fn md5_bytes(data: &[u8]) -> (digest: [u8; 16])
    ensures
        digest@ == md5_digest(data@),
{
    md5::compute(data).0
}

/// The hexadecimal digits, lower case.
pub open spec fn hex_digits() -> Seq<char> {
    seq!['0', '1', '2', '3', '4', '5', '6', '7', '8', '9', 'a', 'b', 'c', 'd', 'e', 'f']
}

/// `bytes` in lower-case hexadecimal, two digits to the byte.
pub open spec fn hex_lower(bytes: Seq<u8>) -> Seq<char>
    decreases bytes.len(),
{
    if bytes.len() == 0 {
        Seq::empty()
    } else {
        hex_lower(bytes.drop_last()) + seq![
            hex_digits()[bytes.last() as int / 16],
            hex_digits()[bytes.last() as int % 16],
        ]
    }
}

/// The key of the text `combined`.
pub open spec fn digest_key(combined: Seq<char>) -> Seq<char> {
    hex_lower(md5_digest(vstd::utf8::encode_utf8(combined)))
}

/// The key of a list of fields.
pub open spec fn fingerprint(parts: Seq<Seq<char>>) -> Seq<char> {
    digest_key(concat_all(parts))
}

/// The key of a request: of its message, the name of the model, the
/// temperature as a decimal numeral, and the token limit.
pub open spec fn request_key(
    message: Seq<char>,
    model: Seq<char>,
    temperature: Seq<char>,
    max_tokens: nat,
) -> Seq<char> {
    fingerprint(seq![message, model, temperature, decimal(max_tokens)])
}

/// A hexadecimal rendering has two characters to the byte, each of them a
/// hexadecimal digit.
pub proof fn lemma_hex_lower_shape(bytes: Seq<u8>)
    ensures
        hex_lower(bytes).len() == 2 * bytes.len(),
        forall|i: int|
            0 <= i < hex_lower(bytes).len() ==> hex_digits().contains(#[trigger] hex_lower(bytes)[i]),
    decreases bytes.len(),
{
    if bytes.len() > 0 {
        lemma_hex_lower_shape(bytes.drop_last());
        let high = bytes.last() as int / 16;
        let low = bytes.last() as int % 16;
        assert(hex_digits().contains(hex_digits()[high]));
        assert(hex_digits().contains(hex_digits()[low]));
    }
}

/// Determinism: the key is a function of the fields alone. Equal tuples of
/// fields have equal keys, in whatever call or process they are computed.
pub proof fn lemma_fingerprint_deterministic(first: Seq<Seq<char>>, second: Seq<Seq<char>>)
    requires
        first == second,
    ensures
        fingerprint(first) == fingerprint(second),
{
}

/// The key depends on the fields only through their concatenation: lists
/// of fields that spell the same text share a key, however the text is cut
/// into fields.
pub proof fn lemma_fingerprint_of_concatenation(first: Seq<Seq<char>>, second: Seq<Seq<char>>)
    requires
        concat_all(first) == concat_all(second),
    ensures
        fingerprint(first) == fingerprint(second),
{
}

/// `bytes` in lower-case hexadecimal.
pub fn hex_encode(bytes: &[u8]) -> (text: String)
    ensures
        text@ == hex_lower(bytes@),
{
    let digits = "0123456789abcdef";
    proof {
        reveal_strlit("0123456789abcdef");
    }
    assert(digits@ =~= hex_digits());
    let mut text = String::new();
    let mut i: usize = 0;
    assert(bytes@.take(0) =~= Seq::<u8>::empty());
    while i < bytes.len()
        invariant
            i <= bytes.len(),
            digits@ == hex_digits(),
            text@ == hex_lower(bytes@.take(i as int)),
        decreases bytes.len() - i,
    {
        let byte: u8 = bytes[i];
        let high: usize = (byte / 16) as usize;
        let low: usize = (byte % 16) as usize;
        text.append(digits.substring_char(high, high + 1));
        text.append(digits.substring_char(low, low + 1));
        proof {
            let upto = bytes@.take(i + 1);
            assert(upto.drop_last() =~= bytes@.take(i as int));
            assert(upto.last() == byte);
            assert(text@ =~= hex_lower(bytes@.take(i as int)) + seq![
                hex_digits()[high as int],
                hex_digits()[low as int],
            ]);
        }
        i = i + 1;
    }
    assert(bytes@.take(bytes.len() as int) =~= bytes@);
    text
}

/// The cache key of a list of fields.
pub fn cache_key(parts: &[&str]) -> (key: String)
    ensures
        key@ == fingerprint(parts@.map_values(|part: &str| part@)),
        key@.len() == 32,
{
    let ghost fields = parts@.map_values(|part: &str| part@);
    let mut combined = String::new();
    let mut i: usize = 0;
    assert(fields.take(0) =~= Seq::<Seq<char>>::empty());
    while i < parts.len()
        invariant
            i <= parts.len(),
            fields == parts@.map_values(|part: &str| part@),
            combined@ == concat_all(fields.take(i as int)),
        decreases parts.len() - i,
    {
        combined.append(parts[i]);
        proof {
            assert(fields.take(i + 1).drop_last() =~= fields.take(i as int));
            assert(fields.take(i + 1).last() == parts@[i as int]@);
        }
        i = i + 1;
    }
    assert(fields.take(parts.len() as int) =~= fields);
    let digest = md5_bytes(combined.as_str().as_bytes());
    proof {
        lemma_hex_lower_shape(digest@);
    }
    hex_encode(digest.as_slice())
}

/// The cache key of a request. Fields of the request that do not change the
/// answer, such as whether it asks for a stream or bypasses the cache, are
/// no part of the key.
pub fn request_fingerprint(message: &str, model: &str, temperature: &str, max_tokens: usize) -> (key:
    String)
    ensures
        key@ == request_key(message@, model@, temperature@, max_tokens as nat),
        key@.len() == 32,
{
    let limit = decimal_text(max_tokens);
    let parts: [&str; 4] = [message, model, temperature, limit.as_str()];
    let key = cache_key(parts.as_slice());
    proof {
        assert(parts@.map_values(|part: &str| part@) =~= seq![
            message@,
            model@,
            temperature@,
            decimal(max_tokens as nat),
        ]);
    }
    key
}

} // verus!
