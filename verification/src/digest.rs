//! Digests of byte strings, and their hexadecimal form.

use vstd::prelude::*;

verus! {

/// The digest that `blake3::hash` gives for `input`.
pub uninterp spec fn blake3_digest(input: Seq<u8>) -> Seq<u8>;

/// The lowercase hexadecimal digit that stands for `n`.
pub open spec fn hex_digit(n: int) -> char {
    if n < 10 {
        (('0' as int) + n) as char
    } else {
        (('a' as int) + (n - 10)) as char
    }
}

/// The lowercase hexadecimal form of `bytes`: two digits for each byte, the higher one first.
pub open spec fn hex_text(bytes: Seq<u8>) -> Seq<char> {
    Seq::new(
        2 * bytes.len(),
        |i: int|
            if i % 2 == 0 {
                hex_digit(bytes[i / 2] as int / 16)
            } else {
                hex_digit(bytes[i / 2] as int % 16)
            },
    )
}

/// Calls `blake3::hash` and takes the 32 bytes of the hash. They are a function of the input
/// alone.
#[verifier::external_body]
pub(crate) fn digest(input: &[u8]) -> (r: [u8; 32])
    ensures
        r@ == blake3_digest(input@),
{
    *blake3::hash(input).as_bytes()
}

/// Calls `blake3::Hash::to_hex` on the hash with these bytes: their lowercase hexadecimal form.
#[verifier::external_body]
fn to_hex(digest: [u8; 32]) -> (r: String)
    ensures
        r@ == hex_text(digest@),
{
    blake3::Hash::from_bytes(digest).to_hex().to_string()
}

/// The lowercase hexadecimal form of a digest.
pub fn digest_text(digest: [u8; 32]) -> (r: String)
    ensures
        r@ == hex_text(digest@),
        r@.len() == 64,
{
    to_hex(digest)
}

} // verus!
