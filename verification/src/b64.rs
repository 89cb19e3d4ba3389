//! Base64: the wire form of byte fields (standard alphabet, padded) and of
//! random tokens (URL-safe alphabet, unpadded).

use base64::Engine;
use vstd::prelude::*;

verus! {

/// The character of a six-bit value in a base64 alphabet (RFC 4648): the
/// standard one ends in `+` and `/`, the URL-safe one in `-` and `_`.
pub open spec fn b64_symbol(x: int, url_safe: bool) -> char {
    if x < 26 {
        (65 + x) as char
    } else if x < 52 {
        (97 + x - 26) as char
    } else if x < 62 {
        (48 + x - 52) as char
    } else if x == 62 {
        if url_safe { '-' } else { '+' }
    } else {
        if url_safe { '_' } else { '/' }
    }
}

/// Base64 of a byte string (RFC 4648): each group of three bytes gives four
/// characters of six bits each; a final group of one or two bytes gives two
/// or three characters, followed by `=` padding to four when padded.
pub open spec fn b64_encode(bytes: Seq<u8>, url_safe: bool, padded: bool) -> Seq<char>
    decreases bytes.len(),
{
    if bytes.len() == 0 {
        Seq::empty()
    } else if bytes.len() == 1 {
        let b0 = bytes[0] as int;
        seq![b64_symbol(b0 / 4, url_safe), b64_symbol((b0 % 4) * 16, url_safe)] + if padded {
            seq!['=', '=']
        } else {
            Seq::empty()
        }
    } else if bytes.len() == 2 {
        let (b0, b1) = (bytes[0] as int, bytes[1] as int);
        seq![
            b64_symbol(b0 / 4, url_safe),
            b64_symbol((b0 % 4) * 16 + b1 / 16, url_safe),
            b64_symbol((b1 % 16) * 4, url_safe),
        ] + if padded {
            seq!['=']
        } else {
            Seq::empty()
        }
    } else {
        let (b0, b1, b2) = (bytes[0] as int, bytes[1] as int, bytes[2] as int);
        seq![
            b64_symbol(b0 / 4, url_safe),
            b64_symbol((b0 % 4) * 16 + b1 / 16, url_safe),
            b64_symbol((b1 % 16) * 4 + b2 / 64, url_safe),
            b64_symbol(b2 % 64, url_safe),
        ] + b64_encode(bytes.skip(3), url_safe, padded)
    }
}

/// Standard padded base64 of a byte string.
pub open spec fn base64_standard(bytes: Seq<u8>) -> Seq<char> {
    b64_encode(bytes, false, true)
}

/// URL-safe unpadded base64 of a byte string.
pub open spec fn base64_url_unpadded(bytes: Seq<u8>) -> Seq<char> {
    b64_encode(bytes, true, false)
}

/// The length of the padded encoding of `n` bytes.
pub open spec fn padded_len(n: nat) -> nat {
    4 * ((n + 2) / 3)
}

/// The length of the unpadded encoding of `n` bytes.
pub open spec fn unpadded_len(n: nat) -> nat {
    (4 * n + 2) / 3
}

/// A character of the URL-safe alphabet.
pub open spec fn url_safe_char(c: char) -> bool {
    ('A' <= c && c <= 'Z') || ('a' <= c && c <= 'z') || ('0' <= c && c <= '9') || c == '-' || c
        == '_'
}

/// A six-bit value has a URL-safe character in the URL-safe alphabet.
proof fn url_symbol_is_url_safe(x: int)
    requires
        0 <= x < 64,
    ensures
        url_safe_char(b64_symbol(x, true)),
{
}

/// The lengths of the encodings, and that the URL-safe one uses only the
/// URL-safe alphabet.
pub proof fn b64_encode_shape(bytes: Seq<u8>)
    ensures
        b64_encode(bytes, false, true).len() == padded_len(bytes.len()),
        b64_encode(bytes, true, false).len() == unpadded_len(bytes.len()),
        forall|i: int|
            0 <= i < b64_encode(bytes, true, false).len() ==> url_safe_char(
                #[trigger] b64_encode(bytes, true, false)[i],
            ),
    decreases bytes.len(),
{
    let e = b64_encode(bytes, true, false);
    if bytes.len() == 0 {
    } else if bytes.len() == 1 {
        let b0 = bytes[0] as int;
        url_symbol_is_url_safe(b0 / 4);
        url_symbol_is_url_safe((b0 % 4) * 16);
    } else if bytes.len() == 2 {
        let (b0, b1) = (bytes[0] as int, bytes[1] as int);
        url_symbol_is_url_safe(b0 / 4);
        url_symbol_is_url_safe((b0 % 4) * 16 + b1 / 16);
        url_symbol_is_url_safe((b1 % 16) * 4);
    } else {
        let (b0, b1, b2) = (bytes[0] as int, bytes[1] as int, bytes[2] as int);
        b64_encode_shape(bytes.skip(3));
        url_symbol_is_url_safe(b0 / 4);
        url_symbol_is_url_safe((b0 % 4) * 16 + b1 / 16);
        url_symbol_is_url_safe((b1 % 16) * 4 + b2 / 64);
        url_symbol_is_url_safe(b2 % 64);
        let rest = b64_encode(bytes.skip(3), true, false);
        assert forall|i: int| 0 <= i < e.len() implies url_safe_char(#[trigger] e[i]) by {
            if i >= 4 {
                assert(e[i] == rest[i - 4]);
            }
        }
    }
}

/// `base64::engine::general_purpose::STANDARD.encode`: the padded encoding
/// with the standard alphabet, `4 * ceil(n / 3)` characters long. It panics
/// when that length does not fit in `usize`, which `requires` rules out.
#[verifier::external_body]
fn standard_encode(bytes: &[u8]) -> (s: String)
    requires
        padded_len(bytes@.len()) <= usize::MAX,
    ensures
        s@ == base64_standard(bytes@),
{
    base64::engine::general_purpose::STANDARD.encode(bytes)
}

/// `base64::engine::general_purpose::STANDARD.decode`: with this engine's
/// configuration (canonical padding required, trailing bits refused) it
/// accepts exactly the encodings of byte strings and gives back the bytes
/// encoded.
#[verifier::external_body]
fn standard_decode(s: &str) -> (r: Result<Vec<u8>, base64::DecodeError>)
    ensures
        r matches Ok(v) ==> base64_standard(v@) == s@,
        r is Err ==> forall|v: Seq<u8>| #[trigger] base64_standard(v) != s@,
        r matches Ok(w) ==> forall|v: Seq<u8>| #[trigger] base64_standard(v) == s@ ==> v == w@,
{
    base64::engine::general_purpose::STANDARD.decode(s.as_bytes())
}

/// `base64::engine::general_purpose::URL_SAFE_NO_PAD.encode`: the unpadded
/// encoding with the URL-safe alphabet, `ceil(4n / 3)` characters long. It
/// panics when that length does not fit in `usize`, which `requires` rules
/// out.
#[verifier::external_body]
fn url_safe_encode(bytes: &[u8]) -> (s: String)
    requires
        unpadded_len(bytes@.len()) <= usize::MAX,
    ensures
        s@ == base64_url_unpadded(bytes@),
{
    base64::engine::general_purpose::URL_SAFE_NO_PAD.encode(bytes)
}

/// A byte field as it travels in JSON.
pub fn encode_wire_bytes(bytes: &[u8]) -> (s: String)
    requires
        padded_len(bytes@.len()) <= usize::MAX,
    ensures
        s@ == base64_standard(bytes@),
{
    standard_encode(bytes)
}

/// A string that is no base64 encoding of bytes.
#[derive(Debug)]
pub struct WireDecodeError(pub base64::DecodeError);

/// A byte field read back from JSON: the bytes it encodes, when it encodes
/// any.
pub fn decode_wire_bytes(s: &str) -> (r: Result<Vec<u8>, WireDecodeError>)
    ensures
        r matches Ok(v) ==> base64_standard(v@) == s@,
        r is Err ==> forall|v: Seq<u8>| #[trigger] base64_standard(v) != s@,
        r matches Ok(w) ==> forall|v: Seq<u8>| #[trigger] base64_standard(v) == s@ ==> v == w@,
{
    match standard_decode(s) {
        Ok(v) => Ok(v),
        Err(e) => Err(WireDecodeError(e)),
    }
}

/// Bytes encoded for the wire read back as the same bytes.
pub proof fn wire_bytes_roundtrip(bytes: Seq<u8>, s: Seq<char>, back: Seq<u8>)
    requires
        s == base64_standard(bytes),
        base64_standard(back) == s,
        forall|v: Seq<u8>| #[trigger] base64_standard(v) == s ==> v == back,
    ensures
        back == bytes,
{
}

/// Random bytes encoded with the URL-safe alphabet, unpadded.
pub fn encode_token_bytes(bytes: &[u8]) -> (s: String)
    requires
        unpadded_len(bytes@.len()) <= usize::MAX,
    ensures
        s@ == base64_url_unpadded(bytes@),
        s@.len() == unpadded_len(bytes@.len()),
        forall|i: int| 0 <= i < s@.len() ==> url_safe_char(#[trigger] s@[i]),
{
    proof {
        b64_encode_shape(bytes@);
    }
    url_safe_encode(bytes)
}

} // verus!
