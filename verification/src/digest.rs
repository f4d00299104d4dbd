//! Checksums over raw bytes: the digest itself comes from an outside
//! implementation, its hexadecimal rendering is pinned down exactly.

use sha2::Digest;

use vstd::prelude::*;

verus! {

/// The digest the outside implementation computes for a byte sequence; it
/// depends on the bytes alone.
pub uninterp spec fn sha256_of(data: Seq<u8>) -> Seq<u8>;

/// Relies on sha2's Sha256: one update over all bytes then the final
/// digest, which is 32 bytes long and a function of the input alone.
#[verifier::external_body]
fn sha256_digest(data: &Vec<u8>) -> (r: Vec<u8>)
    ensures
        r@ == sha256_of(data@),
        r@.len() == 32,
{
    let mut hasher = sha2::Sha256::new();
    hasher.update(data.as_slice());
    hasher.finalize().to_vec()
}

/// One lower-case hexadecimal digit.
pub open spec fn hex_digit(n: int) -> char {
    if n < 10 {
        (0x30 + n) as char
    } else {
        (0x57 + n) as char
    }
}

/// The lower-case hexadecimal rendering of a byte sequence: two digits
/// per byte, high nibble first.
pub open spec fn hex_lower_of(bytes: Seq<u8>) -> Seq<char> {
    Seq::new(
        bytes.len() * 2,
        |i: int|
            if i % 2 == 0 {
                hex_digit(bytes[i / 2] as int / 16)
            } else {
                hex_digit(bytes[i / 2] as int % 16)
            },
    )
}

/// Relies on base16ct's lower-case encoder: each byte becomes its two
/// hexadecimal digits, high nibble first.
#[verifier::external_body]
fn hex_encode(bytes: &Vec<u8>) -> (r: String)
    requires
        bytes@.len() <= 0x1000000,
    ensures
        r@ == hex_lower_of(bytes@),
{
    base16ct::lower::encode_string(bytes.as_slice())
}

/// The checksum of raw bytes, rendered as lower-case hexadecimal: what
/// the checksum command prints for a file's content.
pub fn sha256_hex(data: &Vec<u8>) -> (r: String)
    ensures
        r@ == hex_lower_of(sha256_of(data@)),
{
    let digest = sha256_digest(data);
    hex_encode(&digest)
}

} // verus!
