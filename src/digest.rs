//! The version token: a SHA-1 digest of the manifest bytes, in lowercase hex.
use vstd::prelude::*;

verus! {

/// The SHA-1 digest of `b`.
pub uninterp spec fn sha1_of(b: Seq<u8>) -> Seq<u8>;

/// Relies on sha1's `Digest::digest` for `Sha1`: the 20-byte digest of the input.
#[verifier::external_body]
fn sha1_digest(b: &[u8]) -> (r: Vec<u8>)
    ensures
        r@ == sha1_of(b@),
        r@.len() == 20,
{
    <sha1::Sha1 as sha1::Digest>::digest(b).to_vec()
}

/// The lowercase hexadecimal digit for `d` (below sixteen).
pub open spec fn hex_digit(d: int) -> char {
    "0123456789abcdef"@[d]
}

/// `b` in lowercase hexadecimal: two digits per byte, the high nibble first.
pub open spec fn hex_lower(b: Seq<u8>) -> Seq<char> {
    Seq::new(
        2 * b.len(),
        |i: int|
            if i % 2 == 0 {
                hex_digit(b[i / 2] as int / 16)
            } else {
                hex_digit(b[i / 2] as int % 16)
            },
    )
}

/// Relies on hex::encode: two lowercase digits per byte, the high nibble first.
#[verifier::external_body]
fn hex_encode(b: &[u8]) -> (r: String)
    ensures
        r@ == hex_lower(b@),
{
    hex::encode(b)
}

/// The version token of a manifest: its bytes' digest in lowercase hex.
pub open spec fn version_of(b: Seq<u8>) -> Seq<char> {
    hex_lower(sha1_of(b))
}

/// Computes the version token of the manifest bytes `manifest`.
pub fn version_token(manifest: &[u8]) -> (r: String)
    ensures
        r@ == version_of(manifest@),
        r@.len() == 40,
{
    let digest = sha1_digest(manifest);
    hex_encode(digest.as_slice())
}

/// Distinct values below sixteen have distinct hex digits.
proof fn lemma_hex_digit_injective(d1: int, d2: int)
    requires
        0 <= d1 < 16,
        0 <= d2 < 16,
        hex_digit(d1) == hex_digit(d2),
    ensures
        d1 == d2,
{
    reveal_strlit("0123456789abcdef");
    assert(d1 == 0 || d1 == 1 || d1 == 2 || d1 == 3 || d1 == 4 || d1 == 5 || d1 == 6 || d1 == 7
        || d1 == 8 || d1 == 9 || d1 == 10 || d1 == 11 || d1 == 12 || d1 == 13 || d1 == 14 || d1
        == 15);
    assert(d2 == 0 || d2 == 1 || d2 == 2 || d2 == 3 || d2 == 4 || d2 == 5 || d2 == 6 || d2 == 7
        || d2 == 8 || d2 == 9 || d2 == 10 || d2 == 11 || d2 == 12 || d2 == 13 || d2 == 14 || d2
        == 15);
}

/// Hex encoding loses nothing: equal encodings come from equal bytes.
pub proof fn lemma_hex_lower_injective(a: Seq<u8>, b: Seq<u8>)
    requires
        hex_lower(a) == hex_lower(b),
    ensures
        a == b,
{
    assert(hex_lower(a).len() == 2 * a.len());
    assert(hex_lower(b).len() == 2 * b.len());
    assert forall|i: int| 0 <= i < a.len() implies a[i] == b[i] by {
        assert((2 * i) / 2 == i && (2 * i) % 2 == 0);
        assert((2 * i + 1) / 2 == i && (2 * i + 1) % 2 == 1);
        assert(hex_lower(a)[2 * i] == hex_lower(b)[2 * i]);
        assert(hex_lower(a)[2 * i + 1] == hex_lower(b)[2 * i + 1]);
        assert(hex_lower(a)[2 * i] == hex_digit(a[i] as int / 16));
        assert(hex_lower(b)[2 * i] == hex_digit(b[i] as int / 16));
        assert(hex_lower(a)[2 * i + 1] == hex_digit(a[i] as int % 16));
        assert(hex_lower(b)[2 * i + 1] == hex_digit(b[i] as int % 16));
        lemma_hex_digit_injective(a[i] as int / 16, b[i] as int / 16);
        lemma_hex_digit_injective(a[i] as int % 16, b[i] as int % 16);
    }
    assert(a =~= b);
}

/// Identical manifest bytes always give the identical version token, and two
/// tokens agree exactly when the SHA-1 digests of the two manifests agree; so
/// different manifests share a token only through a SHA-1 collision.
pub proof fn lemma_version_stable(b1: Seq<u8>, b2: Seq<u8>)
    ensures
        b1 == b2 ==> version_of(b1) == version_of(b2),
        version_of(b1) == version_of(b2) <==> sha1_of(b1) == sha1_of(b2),
{
    if version_of(b1) == version_of(b2) {
        lemma_hex_lower_injective(sha1_of(b1), sha1_of(b2));
    }
}

} // verus!
