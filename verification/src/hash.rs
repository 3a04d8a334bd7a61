//! The hash under which bearer tokens are stored.

use sha2::{Digest, Sha256};
use vstd::prelude::*;
use vstd::utf8::*;

verus! {

/// The SHA-256 digest of `data`.
pub uninterp spec fn sha256_of(data: Seq<u8>) -> Seq<u8>;

/// The lower case hexadecimal digit for `d`.
pub open spec fn hex_digit(d: int) -> char {
    if d < 10 {
        (48 + d) as char
    } else {
        (87 + d) as char
    }
}

/// Two lower case hexadecimal digits for each byte, the high half first.
pub open spec fn hex_of(data: Seq<u8>) -> Seq<char> {
    Seq::new(
        2 * data.len(),
        |i: int|
            if i % 2 == 0 {
                hex_digit(data[i / 2] as int / 16)
            } else {
                hex_digit(data[i / 2] as int % 16)
            },
    )
}

/// The stored form of a token: the digest of its UTF-8 bytes in hexadecimal.
pub open spec fn key_hash_of(token: Seq<char>) -> Seq<char> {
    hex_of(sha256_of(encode_utf8(token)))
}

/// `sha2::Sha256`, fed with `data` and finalized. The digest has 32 bytes; which
/// ones is left to its name.
#[verifier::external_body]
fn sha256(data: &[u8]) -> (r: Vec<u8>)
    ensures
        r@ == sha256_of(data@),
        r@.len() == 32,
{
    let mut hasher = Sha256::new();
    hasher.update(data);
    hasher.finalize().to_vec()
}

/// `hex::encode`: two lower case hexadecimal digits for each byte.
#[verifier::external_body]
fn hex_encode(data: &[u8]) -> (r: String)
    requires
        2 * data@.len() <= isize::MAX,
    ensures
        r@ == hex_of(data@),
{
    hex::encode(data)
}

/// The stored form of a token whose digest is `digest`.
pub fn digest_text(digest: &[u8]) -> (r: String)
    requires
        2 * digest@.len() <= isize::MAX,
    ensures
        r@ == hex_of(digest@),
{
    hex_encode(digest)
}

/// The hash under which `token` is looked up.
pub fn key_hash(token: &str) -> (r: String)
    ensures
        r@ == key_hash_of(token@),
        r@.len() == 64,
{
    let digest = sha256(token.as_bytes());
    digest_text(digest.as_slice())
}

/// The number that a hexadecimal digit stands for.
pub open spec fn hex_value(c: char) -> int {
    if '0' <= c <= '9' {
        c as u32 - 48
    } else {
        10 + (c as u32 - 97)
    }
}

/// Hexadecimal text has two digits for each byte, in lower case, and the byte can be
/// read from them.
pub proof fn bytes_can_be_read_from_hex(data: Seq<u8>, i: int)
    requires
        0 <= i < data.len(),
    ensures
        hex_of(data).len() == 2 * data.len(),
        ({
            let high = hex_of(data)[2 * i];
            let low = hex_of(data)[2 * i + 1];
            &&& '0' <= high <= '9' || 'a' <= high <= 'f'
            &&& '0' <= low <= '9' || 'a' <= low <= 'f'
            &&& 16 * hex_value(high) + hex_value(low) == data[i]
        }),
{
    assert((2 * i) / 2 == i && (2 * i) % 2 == 0);
    assert((2 * i + 1) / 2 == i && (2 * i + 1) % 2 == 1);
}

/// Two tokens have the same hash if and only if their UTF-8 bytes have the same
/// SHA-256 digest: nothing of a token is left out, and nothing else goes in.
pub proof fn same_hash_same_digest(a: Seq<char>, b: Seq<char>)
    ensures
        key_hash_of(a) == key_hash_of(b) <==> sha256_of(encode_utf8(a)) == sha256_of(
            encode_utf8(b),
        ),
        key_hash_of(a) == hex_of(sha256_of(encode_utf8(a))),
{
    let x = sha256_of(encode_utf8(a));
    let y = sha256_of(encode_utf8(b));
    if key_hash_of(a) == key_hash_of(b) {
        assert(hex_of(x).len() == 2 * x.len() && hex_of(y).len() == 2 * y.len());
        assert forall|i: int| 0 <= i < x.len() implies x[i] == y[i] by {
            bytes_can_be_read_from_hex(x, i);
            bytes_can_be_read_from_hex(y, i);
        }
        assert(x =~= y);
    }
}

} // verus!
