use vstd::prelude::*;
use vstd::string::StringSliceAdditionalSpecFns;

use crate::text::{chars_of, hex_digit_lower, string_from_chars};

verus! {

/// The SHA-256 digest of a byte string.
pub uninterp spec fn sha256_of(data: Seq<u8>) -> Seq<u8>;

/// Relies on sha2's `Sha256::digest`: the SHA-256 digest of the bytes,
/// whose output size is 32 bytes.
#[verifier::external_body]
fn sha256(data: &[u8]) -> (r: Vec<u8>)
    ensures
        r@ == sha256_of(data@),
        r@.len() == 32,
{
    <sha2::Sha256 as sha2::Digest>::digest(data).to_vec()
}

/// Two lower-case hexadecimal digits per byte, high nibble first.
pub open spec fn hex_lower(b: Seq<u8>) -> Seq<char> {
    Seq::new(
        2 * b.len(),
        |k: int|
            if k % 2 == 0 {
                hex_digit_lower(b[k / 2] as int / 16)
            } else {
                hex_digit_lower(b[k / 2] as int % 16)
            },
    )
}

/// Relies on `hex::encode`: each byte becomes two lower-case hexadecimal
/// digits, high nibble first.
#[verifier::external_body]
fn hex_encode(data: &Vec<u8>) -> (r: String)
    ensures
        r@ == hex_lower(data@),
{
    hex::encode(data)
}

/// Upper-case form of an ASCII lower-case letter; other characters stay.
pub open spec fn ascii_upper(c: char) -> char {
    if 'a' <= c && c <= 'z' {
        (c as int - 32) as char
    } else {
        c
    }
}

/// Lower-case hexadecimal SHA-256 digest of the bytes.
pub open spec fn digest_hex(data: Seq<u8>) -> Seq<char> {
    hex_lower(sha256_of(data))
}

/// Lower-case hexadecimal SHA-256 digest of the bytes (64 characters).
pub fn sha256_hex(data: &[u8]) -> (r: Vec<char>)
    ensures
        r@ == digest_hex(data@),
        r@.len() == 64,
{
    let d = sha256(data);
    let h = hex_encode(&d);
    chars_of(h.as_str())
}

/// The first `n` characters of `s`, upper-cased.
pub open spec fn upper_prefix(s: Seq<char>, n: int) -> Seq<char> {
    Seq::new(n as nat, |i: int| ascii_upper(s[i]))
}

/// A stable pseudonym for an identifier: the first sixteen hexadecimal
/// digits of the SHA-256 digest of its bytes, upper-cased.
pub fn generate_hash(original: &str) -> (r: String)
    ensures
        r@ == upper_prefix(digest_hex(original.spec_bytes()), 16),
{
    let h = sha256_hex(original.as_bytes());
    let mut out: Vec<char> = Vec::new();
    let mut i: usize = 0;
    while i < 16
        invariant
            h@.len() == 64,
            i <= 16,
            out@ == upper_prefix(h@, i as int),
        decreases 16 - i,
    {
        let c = h[i];
        let u = if 'a' <= c && c <= 'z' {
            ((c as u32 - 32) as u8) as char
        } else {
            c
        };
        out.push(u);
        i = i + 1;
        assert(out@ =~= upper_prefix(h@, i as int));
    }
    string_from_chars(&out)
}

} // verus!
