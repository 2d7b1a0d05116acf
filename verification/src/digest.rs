//! Digests in text form: SHA-256 over the UTF-8 bytes of a text, written in
//! lower-case hexadecimal.

use vstd::prelude::*;
use vstd::utf8::{decode_utf8, encode_utf8, encode_utf8_decode_utf8};

verus! {

/// The SHA-256 digest of a byte string, as the `sha2` crate computes it.
pub uninterp spec fn sha256_digest(data: Seq<u8>) -> Seq<u8>;

/// The lower-case hexadecimal digit of a value below sixteen.
pub open spec fn hex_digit(nibble: int) -> char {
    seq!['0', '1', '2', '3', '4', '5', '6', '7', '8', '9', 'a', 'b', 'c', 'd', 'e', 'f'][nibble]
}

/// The hexadecimal text of a byte string: two digits for each byte, the
/// high half of the byte first.
pub open spec fn hex_text(bytes: Seq<u8>) -> Seq<char> {
    Seq::new(
        2 * bytes.len(),
        |i: int|
            if i % 2 == 0 {
                hex_digit(bytes[i / 2] as int / 16)
            } else {
                hex_digit(bytes[i / 2] as int % 16)
            },
    )
}

/// The digest of a byte string: the hexadecimal text of its SHA-256 digest.
pub open spec fn digest_of_bytes(data: Seq<u8>) -> Seq<char> {
    hex_text(sha256_digest(data))
}

/// The digest of a text: the digest of its UTF-8 bytes.
pub open spec fn digest_text(text: Seq<char>) -> Seq<char> {
    digest_of_bytes(encode_utf8(text))
}

/// Whether SHA-256 tells two byte strings apart: it does, unless they differ
/// and have the same digest all the same.
pub open spec fn sha256_tells_apart(a: Seq<u8>, b: Seq<u8>) -> bool {
    a != b ==> sha256_digest(a) != sha256_digest(b)
}

/// Calls `sha2::Sha256::digest` on the bytes. The result is named
/// `sha256_digest`; of its content only the length is claimed, which is the
/// 32 bytes of the hasher's output size.
#[verifier::external_body]
fn sha256(data: &[u8]) -> (digest: Vec<u8>)
    ensures
        digest@ == sha256_digest(data@),
        digest@.len() == 32,
{
    <sha2::Sha256 as sha2::Digest>::digest(data).to_vec()
}

/// Calls `hex::encode` on the bytes. The crate writes each byte as two
/// characters of `0123456789abcdef`, the high four bits first.
#[verifier::external_body]
fn hex_encode(bytes: &[u8]) -> (text: String)
    ensures
        text@ == hex_text(bytes@),
{
    hex::encode(bytes)
}

/// Computes the digest of a byte string.
pub fn digest_hex_of_bytes(data: &[u8]) -> (digest: String)
    ensures
        digest@ == digest_of_bytes(data@),
        digest@.len() == 64,
{
    let hash = sha256(data);
    hex_encode(hash.as_slice())
}

/// Computes the digest of a text.
pub fn digest_hex(text: &str) -> (digest: String)
    ensures
        digest@ == digest_text(text@),
        digest@.len() == 64,
{
    digest_hex_of_bytes(text.as_bytes())
}

/// Two distinct values below sixteen have distinct hexadecimal digits.
pub proof fn lemma_hex_digit_injective(a: int, b: int)
    requires
        0 <= a < 16,
        0 <= b < 16,
        hex_digit(a) == hex_digit(b),
    ensures
        a == b,
{
}

/// The hexadecimal text determines the bytes: two byte strings with the same
/// text are equal.
pub proof fn lemma_hex_text_injective(a: Seq<u8>, b: Seq<u8>)
    requires
        hex_text(a) == hex_text(b),
    ensures
        a == b,
{
    assert(hex_text(a).len() == 2 * a.len());
    assert(hex_text(b).len() == 2 * b.len());
    assert(a.len() == b.len());
    assert forall|k: int| 0 <= k < a.len() implies a[k] == b[k] by {
        let high = 2 * k;
        let low = 2 * k + 1;
        assert(hex_text(a)[high] == hex_digit(a[k] as int / 16));
        assert(hex_text(b)[high] == hex_digit(b[k] as int / 16));
        assert(hex_text(a)[low] == hex_digit(a[k] as int % 16));
        assert(hex_text(b)[low] == hex_digit(b[k] as int % 16));
        lemma_hex_digit_injective(a[k] as int / 16, b[k] as int / 16);
        lemma_hex_digit_injective(a[k] as int % 16, b[k] as int % 16);
    }
    assert(a =~= b);
}

/// Two byte strings have the same digest exactly when their SHA-256 digests
/// are equal.
pub proof fn lemma_digest_of_bytes_equal(a: Seq<u8>, b: Seq<u8>)
    ensures
        digest_of_bytes(a) == digest_of_bytes(b) <==> sha256_digest(a) == sha256_digest(b),
{
    if digest_of_bytes(a) == digest_of_bytes(b) {
        lemma_hex_text_injective(sha256_digest(a), sha256_digest(b));
    }
}

/// Two texts have the same digest exactly when the SHA-256 digests of their
/// UTF-8 bytes are equal.
pub proof fn lemma_digest_text_equal(a: Seq<char>, b: Seq<char>)
    ensures
        digest_text(a) == digest_text(b) <==> sha256_digest(encode_utf8(a)) == sha256_digest(
            encode_utf8(b),
        ),
{
    lemma_digest_of_bytes_equal(encode_utf8(a), encode_utf8(b));
}

/// Two distinct texts have distinct UTF-8 bytes.
pub proof fn lemma_utf8_bytes_differ(a: Seq<char>, b: Seq<char>)
    requires
        a != b,
    ensures
        encode_utf8(a) != encode_utf8(b),
{
    encode_utf8_decode_utf8(a);
    encode_utf8_decode_utf8(b);
    if encode_utf8(a) == encode_utf8(b) {
        assert(decode_utf8(encode_utf8(a)) == decode_utf8(encode_utf8(b)));
    }
}

/// Two distinct texts have distinct digests, where SHA-256 tells their bytes
/// apart.
pub proof fn lemma_digest_text_differs(a: Seq<char>, b: Seq<char>)
    requires
        a != b,
        sha256_tells_apart(encode_utf8(a), encode_utf8(b)),
    ensures
        digest_text(a) != digest_text(b),
{
    lemma_utf8_bytes_differ(a, b);
    lemma_digest_text_equal(a, b);
}

} // verus!
