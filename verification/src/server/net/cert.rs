//! Certificate fingerprints: the hex-encoded SHA-256 of a certificate's DER
//! bytes, which the viewer pins trust-on-first-use.

use vstd::prelude::*;

use sha2::Digest;

verus! {

/// ALPN protocol identifier negotiated during the QUIC handshake: the
/// ASCII bytes of `wayland-remote/1`.
pub const ALPN_PROTOCOL: [u8; 16] = [
    119u8, 97u8, 121u8, 108u8, 97u8, 110u8, 100u8, 45u8, 114u8, 101u8, 109u8, 111u8, 116u8, 101u8, 47u8, 49u8,
];

/// The SHA-256 digest of `data`.
pub uninterp spec fn sha256(data: Seq<u8>) -> Seq<u8>;

/// `sha2::Sha256::digest`: the 32-byte SHA-256 digest of `data`, a function
/// of the bytes alone.
#[verifier::external_body]
pub(crate) fn sha256_digest(data: &[u8]) -> (r: [u8; 32])
    ensures
        r@ == sha256(data@),
{
    sha2::Sha256::digest(data).into()
}

/// `String::from_utf8` on ASCII bytes, which are valid UTF-8: the string
/// whose characters are those bytes.
#[verifier::external_body]
fn ascii_to_string(bytes: Vec<u8>) -> (s: String)
    requires
        forall|i: int| 0 <= i < bytes@.len() ==> bytes@[i] < 128,
    ensures
        s@ == bytes@.map_values(|b: u8| b as char),
{
    String::from_utf8(bytes).unwrap_or_default()
}

/// The lowercase hexadecimal digit of a nibble.
pub open spec fn hex_digit(n: u8) -> u8 {
    if n < 10 {
        (48 + n) as u8
    } else {
        (87 + n) as u8
    }
}

/// Two lowercase hexadecimal digits per byte, high nibble first.
pub open spec fn hex_lower(bytes: Seq<u8>) -> Seq<u8> {
    Seq::new(
        2 * bytes.len(),
        |i: int|
            if i % 2 == 0 {
                hex_digit(bytes[i / 2] / 16)
            } else {
                hex_digit(bytes[i / 2] % 16)
            },
    )
}

/// The hex digit of nibble `n` (`n < 16`).
fn nibble_hex(n: u8) -> (d: u8)
    requires
        n < 16,
    ensures
        d == hex_digit(n),
        d < 128,
{
    if n < 10 {
        48 + n
    } else {
        87 + n
    }
}

/// Lowercase hex encoding of `bytes`.
pub fn hex_encode(bytes: &[u8]) -> (out: Vec<u8>)
    ensures
        out@ == hex_lower(bytes@),
        forall|i: int| 0 <= i < out@.len() ==> out@[i] < 128,
{
    let mut out: Vec<u8> = Vec::new();
    let mut k: usize = 0;
    while k < bytes.len()
        invariant
            k <= bytes@.len(),
            out@.len() == 2 * k,
            forall|i: int| 0 <= i < 2 * k ==> out@[i] == hex_lower(bytes@)[i],
            forall|i: int| 0 <= i < out@.len() ==> out@[i] < 128,
        decreases bytes@.len() - k,
    {
        let b = bytes[k];
        out.push(nibble_hex(b / 16));
        out.push(nibble_hex(b % 16));
        proof {
            assert forall|i: int| 0 <= i < 2 * (k + 1) implies out@[i] == hex_lower(bytes@)[i] by {
                if i >= 2 * k {
                    assert(i / 2 == k);
                }
            }
        }
        k = k + 1;
    }
    assert(out@ =~= hex_lower(bytes@));
    out
}

/// SHA-256 of `der`, hex-encoded (64 lowercase characters).
pub fn fingerprint_str(der: &[u8]) -> (s: String)
    ensures
        s@ == hex_lower(sha256(der@)).map_values(|b: u8| b as char),
        s@.len() == 64,
{
    let digest = sha256_digest(der);
    let hex = hex_encode(&digest);
    ascii_to_string(hex)
}

} // verus!
