//! Recipe fingerprints: the lowercase hex form of a SHA-256 digest.

use vstd::prelude::*;

verus! {

/// The SHA-256 digest of `bytes`.
pub uninterp spec fn sha256_of(bytes: Seq<u8>) -> Seq<u8>;

/// The lowercase hex digit for a nibble `n` (`0 <= n < 16`).
pub open spec fn hex_digit(n: int) -> char {
    if n < 10 {
        (n + 48) as char
    } else {
        (n + 87) as char
    }
}

/// Two lowercase hex digits per byte, high nibble first, no separators.
pub open spec fn hex_lower(bytes: Seq<u8>) -> Seq<char> {
    Seq::new(
        2 * bytes.len(),
        |i: int|
            if i % 2 == 0 {
                hex_digit(bytes[i / 2] as int / 16)
            } else {
                hex_digit(bytes[i / 2] as int % 16)
            },
    )
}

/// The fingerprint of a recipe whose source is `bytes`.
pub open spec fn fingerprint_of(bytes: Seq<u8>) -> Seq<char> {
    hex_lower(sha256_of(bytes))
}

/// Relies on `sha2::Sha256::digest`: the 32-byte SHA-256 digest of the input.
#[verifier::external_body]
fn sha256(bytes: &[u8]) -> (r: Vec<u8>)
    ensures
        r@ == sha256_of(bytes@),
        r@.len() == 32,
{
    <sha2::Sha256 as sha2::Digest>::digest(bytes).to_vec()
}

/// Relies on `base16ct::lower::encode_string`: each byte becomes two
/// lowercase hex digits, high nibble first. It panics only on inputs longer
/// than half the address space.
#[verifier::external_body]
fn encode_lower_hex(bytes: &[u8]) -> (r: String)
    requires
        bytes@.len() <= usize::MAX / 2,
    ensures
        r@ == hex_lower(bytes@),
{
    base16ct::lower::encode_string(bytes)
}

/// The fingerprint of `content`: 64 lowercase hex digits of its SHA-256.
pub fn fingerprint(content: &[u8]) -> (r: String)
    ensures
        r@ == fingerprint_of(content@),
        r@.len() == 64,
{
    let digest = sha256(content);
    encode_lower_hex(digest.as_slice())
}

/// Checks `contents` against an expected fingerprint. On a mismatch the
/// error holds the fingerprint that was computed.
pub fn check_hash_for_bytes(contents: &[u8], expected_hash: &str) -> (r: Result<(), String>)
    ensures
        r is Ok <==> fingerprint_of(contents@) == expected_hash@,
        r matches Err(computed) ==> computed@ == fingerprint_of(contents@),
{
    let encoded = fingerprint(contents);
    let expected = expected_hash.to_owned();
    if encoded == expected {
        Ok(())
    } else {
        Err(encoded)
    }
}

proof fn lemma_hex_digit_injective(x: int, y: int)
    requires
        0 <= x < 16,
        0 <= y < 16,
        hex_digit(x) == hex_digit(y),
    ensures
        x == y,
{
    assert(hex_digit(x) as int == if x < 10 { x + 48 } else { x + 87 });
    assert(hex_digit(y) as int == if y < 10 { y + 48 } else { y + 87 });
}

/// Distinct byte strings have distinct hex forms.
pub proof fn lemma_hex_lower_injective(a: Seq<u8>, b: Seq<u8>)
    requires
        hex_lower(a) == hex_lower(b),
    ensures
        a == b,
{
    let ha = hex_lower(a);
    let hb = hex_lower(b);
    assert(ha.len() == 2 * a.len());
    assert(hb.len() == 2 * b.len());
    assert(a.len() == b.len());
    assert forall|k: int| 0 <= k < a.len() implies a[k] == b[k] by {
        assert((2 * k) / 2 == k && (2 * k) % 2 == 0);
        assert((2 * k + 1) / 2 == k && (2 * k + 1) % 2 == 1);
        assert(ha[2 * k] == hb[2 * k]);
        assert(ha[2 * k + 1] == hb[2 * k + 1]);
        let (x, y) = (a[k] as int, b[k] as int);
        lemma_hex_digit_injective(x / 16, y / 16);
        lemma_hex_digit_injective(x % 16, y % 16);
        assert(x == 16 * (x / 16) + x % 16 && y == 16 * (y / 16) + y % 16) by (nonlinear_arith)
            requires
                0 <= x,
                0 <= y,
        ;
    }
    assert(a =~= b);
}

} // verus!
