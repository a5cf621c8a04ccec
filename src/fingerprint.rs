use sha2::Digest;
use vstd::prelude::*;

verus! {

/// The SHA-256 digest of `data`.
pub uninterp spec fn sha256_of(data: Seq<u8>) -> Seq<u8>;

/// The lowercase hexadecimal digit for a nibble `n` (0 to 15).
pub open spec fn hex_digit(n: int) -> char {
    seq!['0', '1', '2', '3', '4', '5', '6', '7', '8', '9', 'a', 'b', 'c', 'd', 'e', 'f'][n]
}

/// Lowercase hexadecimal text of `b`: two digits per byte, high nibble first.
pub open spec fn hex_lower(b: Seq<u8>) -> Seq<char> {
    Seq::new(
        2 * b.len(),
        |i: int|
            if i % 2 == 0 {
                hex_digit((b[i / 2] as int) / 16)
            } else {
                hex_digit((b[i / 2] as int) % 16)
            },
    )
}

/// The fingerprint of a file's content: the lowercase hex text of its SHA-256 digest.
pub open spec fn fingerprint_of(content: Seq<u8>) -> Seq<char> {
    hex_lower(sha256_of(content))
}

/// Relies on sha2's `Sha256::digest`: the 32-byte SHA-256 digest of the whole input.
#[verifier::external_body]
fn sha256_digest(data: &[u8]) -> (r: Vec<u8>)
    ensures
        r@ == sha256_of(data@),
        r@.len() == 32,
{
    sha2::Sha256::digest(data).to_vec()
}

/// Relies on `hex::encode`: each byte becomes two lowercase hex digits, high nibble first.
#[verifier::external_body]
fn hex_encode(data: &[u8]) -> (r: String)
    ensures
        r@ == hex_lower(data@),
{
    hex::encode(data)
}

/// Fingerprints a file's full content: 64 lowercase hex characters of its SHA-256 digest.
pub fn calculate_checksum(content: &[u8]) -> (r: String)
    ensures
        r@ == fingerprint_of(content@),
        r@.len() == 64,
{
    let digest = sha256_digest(content);
    hex_encode(digest.as_slice())
}

} // verus!
