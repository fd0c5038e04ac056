//! Receipts: Blake2b-512 digests of job outputs.

use vstd::prelude::*;
use vstd::string::StringSliceAdditionalSpecFns;
use crate::hexcode::{hex_lower, to_hex};
use blake2::Digest;

verus! {

/// The Blake2b-512 digest of a byte string.
pub uninterp spec fn blake2b_512(data: Seq<u8>) -> Seq<u8>;

/// Calls `Digest::digest` of `Blake2b512` (a new hasher, one update with
/// `data`, finalize) and returns the 64 bytes of the digest.
#[verifier::external_body]
fn blake2b_512_digest(data: &[u8]) -> (r: [u8; 64])
    ensures
        r@ == blake2b_512(data@),
{
    blake2::Blake2b512::digest(data).into()
}

/// The receipt text of an output: hex of the Blake2b-512 digest of its
/// UTF-8 bytes.
pub open spec fn receipt_of(text: Seq<char>) -> Seq<char> {
    hex_lower(blake2b_512(vstd::utf8::encode_utf8(text)))
}

/// Receipt hashing with Blake2b-512.
pub struct Receipt;

impl Receipt {
    /// Returns the hex-encoded Blake2b-512 digest of `s`.
    pub fn hash_str(s: &str) -> (r: String)
        ensures
            r@ == receipt_of(s@),
            r@ == hex_lower(blake2b_512(s.spec_bytes())),
            r@.len() == 128,
    {
        let digest = blake2b_512_digest(s.as_bytes());
        to_hex(&digest)
    }
}

/// The receipt of a text is the hex of the Blake2b-512 digest of all of
/// its UTF-8 bytes, 128 digits long.
pub proof fn lemma_receipt_covers_whole_text(text: Seq<char>)
    ensures
        receipt_of(text) == hex_lower(blake2b_512(vstd::utf8::encode_utf8(text))),
        blake2b_512(vstd::utf8::encode_utf8(text)).len() == 64 ==> receipt_of(text).len() == 128,
{
}

/// Two texts have the same receipt exactly when the Blake2b-512 digests of
/// their whole UTF-8 bytes are the same.
pub proof fn lemma_receipts_agree_with_digests(a: Seq<char>, b: Seq<char>)
    ensures
        receipt_of(a) == receipt_of(b) <==> blake2b_512(vstd::utf8::encode_utf8(a)) == blake2b_512(
            vstd::utf8::encode_utf8(b),
        ),
{
    if receipt_of(a) == receipt_of(b) {
        crate::canonical::lemma_hex_lower_injective(
            blake2b_512(vstd::utf8::encode_utf8(a)),
            blake2b_512(vstd::utf8::encode_utf8(b)),
        );
    }
}

} // verus!
