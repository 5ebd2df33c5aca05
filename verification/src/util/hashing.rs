//! SHA-256 checksums of rendered text and staged files.
use sha2::Digest;
use vstd::prelude::*;
use vstd::utf8::encode_utf8;

verus! {

/// The lower-case hexadecimal SHA-256 digest of some bytes.
pub uninterp spec fn sha256_hex(input: Seq<u8>) -> Seq<char>;

/// The checksum of a text: the digest of its UTF-8 encoding.
pub open spec fn text_checksum(text: Seq<char>) -> Seq<char> {
    sha256_hex(encode_utf8(text))
}

/// Calls `sha2::Sha256::digest` on `bytes` and writes the digest as
/// lower-case hexadecimal. The contract only says that the result is the
/// digest of `bytes` (a function of `bytes` alone); what SHA-256 computes is
/// not stated here.
#[verifier::external_body]
pub(crate) fn sha256_bytes(bytes: &[u8]) -> (r: String)
    ensures
        r@ == sha256_hex(bytes@),
{
    let digest = sha2::Sha256::digest(bytes);
    format!("{digest:x}")
}

/// The checksum of `input`: the digest of its UTF-8 bytes.
pub fn sha256_string(input: &str) -> (r: String)
    ensures
        r@ == text_checksum(input@),
{
    sha256_bytes(input.as_bytes())
}

} // verus!
