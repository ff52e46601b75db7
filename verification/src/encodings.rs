//! Trusted boundary to the outside encoding crates: base64 (standard
//! and URL-safe alphabets), the SHA-1 digest, gzip inflation, and
//! std's UTF-8 validation.
//!
//! Each executable function here wraps exactly one outside call; its
//! contract is what that call's documentation promises, stated over
//! uninterpreted names where the full result would take pages to
//! write out.  Everything else in the crate is verified against these
//! contracts.

use vstd::prelude::*;
use vstd::utf8::{decode_utf8, valid_utf8};

use base64::Engine;
use std::io::Read;

verus! {

/// Whether `c` belongs to the standard base64 alphabet or is the
/// padding character.
pub open spec fn is_b64_std_char(c: char) -> bool {
    ||| 0x41 <= (c as u32) && (c as u32) <= 0x5a  // 'A'..='Z'
    ||| 0x61 <= (c as u32) && (c as u32) <= 0x7a  // 'a'..='z'
    ||| 0x30 <= (c as u32) && (c as u32) <= 0x39  // '0'..='9'
    ||| c == '+'
    ||| c == '/'
    ||| c == '='
}

/// Whether `c` belongs to the URL-safe base64 alphabet or is the
/// padding character.
pub open spec fn is_b64_url_char(c: char) -> bool {
    ||| 0x41 <= (c as u32) && (c as u32) <= 0x5a
    ||| 0x61 <= (c as u32) && (c as u32) <= 0x7a
    ||| 0x30 <= (c as u32) && (c as u32) <= 0x39
    ||| c == '-'
    ||| c == '_'
    ||| c == '='
}

/// The padded standard-alphabet base64 encoding of a byte sequence.
pub uninterp spec fn b64_std_of(b: Seq<u8>) -> Seq<char>;

/// What decoding padded standard-alphabet base64 yields: the encoded
/// bytes, or nothing when the input is not canonical base64.
pub uninterp spec fn b64_std_decode_of(b: Seq<u8>) -> Option<Seq<u8>>;

/// The padded URL-safe-alphabet base64 encoding of a byte sequence.
pub uninterp spec fn b64_url_of(b: Seq<u8>) -> Seq<char>;

/// What decoding padded URL-safe-alphabet base64 yields.
pub uninterp spec fn b64_url_decode_of(b: Seq<u8>) -> Option<Seq<u8>>;

/// The forty lowercase hex characters of the SHA-1 digest of a byte
/// sequence, as ASCII bytes.
pub uninterp spec fn sha1_hex_of(b: Seq<u8>) -> Seq<u8>;

/// What inflating a gzip stream and reading it as UTF-8 text yields,
/// or nothing when the bytes are not a well-formed gzip stream of
/// valid text.
pub uninterp spec fn gunzip_text_of(b: Seq<u8>) -> Option<Seq<char>>;

/// Relies on base64's standard padded engine: `encode` produces the
/// standard-alphabet encoding, over the alphabet and padding
/// characters only, and `decode` of that encoding gives the original
/// bytes back.
#[verifier::external_body]
pub fn b64_std_encode(b: &[u8]) -> (r: String)
    ensures
        r@ == b64_std_of(b@),
        forall|i: int| 0 <= i < r@.len() ==> is_b64_std_char(#[trigger] r@[i]),
        b64_std_decode_of(vstd::utf8::encode_utf8(r@)) == Some(b@),
        b@.len() == 0 ==> r@.len() == 0,
{
    base64::engine::general_purpose::STANDARD.encode(b)
}

/// Relies on base64's standard padded engine: `decode` returns the
/// bytes the input encodes, and an error exactly on inputs that are
/// not canonical padded base64.
#[verifier::external_body]
pub fn b64_std_decode(b: &[u8]) -> (r: Result<Vec<u8>, ()>)
    ensures
        match r {
            Ok(v) => b64_std_decode_of(b@) == Some(v@),
            Err(_) => b64_std_decode_of(b@) is None,
        },
{
    match base64::engine::general_purpose::STANDARD.decode(b) {
        Ok(v) => Ok(v),
        Err(_) => Err(()),
    }
}

/// Relies on base64's URL-safe padded engine, as the standard one
/// above.
#[verifier::external_body]
pub fn b64_url_encode(b: &[u8]) -> (r: String)
    ensures
        r@ == b64_url_of(b@),
        forall|i: int| 0 <= i < r@.len() ==> is_b64_url_char(#[trigger] r@[i]),
        b64_url_decode_of(vstd::utf8::encode_utf8(r@)) == Some(b@),
        b@.len() == 0 ==> r@.len() == 0,
{
    base64::engine::general_purpose::URL_SAFE.encode(b)
}

/// Relies on base64's URL-safe padded engine: `decode` returns the
/// bytes the input encodes, and an error exactly on inputs that are
/// not canonical padded base64.
#[verifier::external_body]
pub fn b64_url_decode(b: &[u8]) -> (r: Result<Vec<u8>, ()>)
    ensures
        match r {
            Ok(v) => b64_url_decode_of(b@) == Some(v@),
            Err(_) => b64_url_decode_of(b@) is None,
        },
{
    match base64::engine::general_purpose::URL_SAFE.decode(b) {
        Ok(v) => Ok(v),
        Err(_) => Err(()),
    }
}

/// Relies on sha1_smol's `Sha1`: the digest of the input bytes,
/// displayed as forty lowercase hex characters.
#[verifier::external_body]
pub fn sha1_hex(data: &[u8]) -> (r: Vec<u8>)
    ensures
        r@ == sha1_hex_of(data@),
        r@.len() == 40,
{
    let mut m = sha1_smol::Sha1::new();
    m.update(data);
    m.digest().to_string().into_bytes()
}

/// Relies on flate2's `GzDecoder` read through
/// `Read::read_to_string`: inflates a gzip stream into text, failing
/// on a malformed stream or non-UTF-8 contents.
#[verifier::external_body]
pub fn gunzip_to_string(data: &[u8]) -> (r: Result<String, ()>)
    ensures
        match r {
            Ok(s) => gunzip_text_of(data@) == Some(s@),
            Err(_) => gunzip_text_of(data@) is None,
        },
{
    let mut decoder = flate2::read::GzDecoder::new(data);
    let mut out = String::new();
    match decoder.read_to_string(&mut out) {
        Ok(_) => Ok(out),
        Err(_) => Err(()),
    }
}

/// Relies on String::from_utf8: succeeds exactly on valid UTF-8 and
/// returns the text those bytes encode.
#[verifier::external_body]
pub fn string_from_utf8(b: Vec<u8>) -> (r: Result<String, ()>)
    ensures
        match r {
            Ok(s) => valid_utf8(b@) && s@ == decode_utf8(b@),
            Err(_) => !valid_utf8(b@),
        },
{
    match String::from_utf8(b) {
        Ok(s) => Ok(s),
        Err(_) => Err(()),
    }
}

} // verus!
