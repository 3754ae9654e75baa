//! Content hashing: SHA-256 digests and their lower-case hexadecimal form.

use sha2::Digest;
use vstd::prelude::*;

verus! {

/// The SHA-256 digest of `data`, as the `sha2` crate computes it.
pub uninterp spec fn sha256_digest(data: Seq<u8>) -> Seq<u8>;

/// Calls `sha2::Sha256::digest`, the one-shot SHA-256 of the `sha2` crate.
///
/// Not proved: that the 32 bytes returned are the digest named
/// [`sha256_digest`], that is, that the digest depends on the bytes of `data`
/// alone.
#[verifier::external_body]
pub(crate) fn sha256(data: &[u8]) -> (digest: [u8; 32])
    ensures
        digest@ == sha256_digest(data@),
{
    sha2::Sha256::digest(data).into()
}

/// The ASCII code of the hexadecimal digit for `nibble`, lower case.
pub open spec fn hex_digit(nibble: int) -> u8 {
    if nibble < 10 {
        (0x30 + nibble) as u8
    } else {
        (0x57 + nibble) as u8
    }
}

/// Two hexadecimal digits per byte, the high nibble first.
pub open spec fn hex_encode(bytes: Seq<u8>) -> Seq<u8> {
    Seq::new(
        2 * bytes.len(),
        |i: int|
            if i % 2 == 0 {
                hex_digit(bytes[i / 2] as int / 16)
            } else {
                hex_digit(bytes[i / 2] as int % 16)
            },
    )
}

/// The content address of `content`: the hexadecimal form of its digest.
pub open spec fn content_address(content: Seq<u8>) -> Seq<u8> {
    hex_encode(sha256_digest(content))
}

fn hex_digit_of(nibble: u8) -> (digit: u8)
    requires
        nibble < 16,
    ensures
        digit == hex_digit(nibble as int),
{
    if nibble < 10 {
        0x30 + nibble
    } else {
        0x57 + nibble
    }
}

/// Encodes `bytes` in lower-case hexadecimal.
pub fn to_hex(bytes: &[u8]) -> (out: Vec<u8>)
    ensures
        out@ == hex_encode(bytes@),
{
    let mut out: Vec<u8> = Vec::new();
    let mut i: usize = 0;
    while i < bytes.len()
        invariant
            i <= bytes.len(),
            out@.len() == 2 * i,
            forall|k: int| 0 <= k < 2 * i ==> out@[k] == hex_encode(bytes@)[k],
        decreases bytes.len() - i,
    {
        let b: u8 = bytes[i];
        out.push(hex_digit_of(b / 16));
        out.push(hex_digit_of(b % 16));
        i += 1;
    }
    out
}

/// Hashes `content` and returns its content address.
pub fn hash_content(content: &[u8]) -> (out: Vec<u8>)
    ensures
        out@ == content_address(content@),
{
    let digest = sha256(content);
    to_hex(digest.as_slice())
}

/// Distinct nibbles have distinct digits.
proof fn lemma_hex_digit_injective(a: int, b: int)
    requires
        0 <= a < 16,
        0 <= b < 16,
        hex_digit(a) == hex_digit(b),
    ensures
        a == b,
{
}

/// Hexadecimal encoding loses nothing: equal encodings come from equal bytes.
pub proof fn law_hex_encode_is_injective(a: Seq<u8>, b: Seq<u8>)
    requires
        hex_encode(a) == hex_encode(b),
    ensures
        a == b,
{
    assert(hex_encode(a).len() == 2 * a.len());
    assert forall|i: int| 0 <= i < a.len() implies a[i] == b[i] by {
        assert(hex_encode(a)[2 * i] == hex_digit(a[i] as int / 16));
        assert(hex_encode(a)[2 * i + 1] == hex_digit(a[i] as int % 16));
        lemma_hex_digit_injective(a[i] as int / 16, b[i] as int / 16);
        lemma_hex_digit_injective(a[i] as int % 16, b[i] as int % 16);
    }
}

} // verus!
