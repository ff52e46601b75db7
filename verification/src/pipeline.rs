//! The fixed keyed pipelines: authentication-token derivation and the
//! comment checksum.  Each is a pure function of its arguments,
//! composed from the cyclic XOR cipher, SHA-1 and base64.

use vstd::prelude::*;
use vstd::slice::slice_to_vec;
use vstd::utf8::encode_utf8;

use crate::encodings::{b64_url_encode, b64_url_of, sha1_hex, sha1_hex_of};
use crate::text::{dec_str, push_char, u64_to_string};
use crate::transforms::{cyclic_xor, xor_seq};

verus! {

/// The bytes of the fixed key `"37526"` that obfuscates passwords in
/// the authentication token.
pub open spec fn auth_key_bytes() -> Seq<u8> {
    seq![0x33u8, 0x37u8, 0x35u8, 0x32u8, 0x36u8]
}

/// The bytes of the fixed key `"29481"` that obfuscates the comment
/// checksum digest.
pub open spec fn chk_key_bytes() -> Seq<u8> {
    seq![0x32u8, 0x39u8, 0x34u8, 0x38u8, 0x31u8]
}

/// The authentication token derived from a plaintext password:
/// URL-safe base64 of the password bytes XOR-ed with the fixed key.
/// Deterministic and unsalted.
pub open spec fn auth_token_spec(password: Seq<char>) -> Seq<char> {
    b64_url_of(xor_seq(encode_utf8(password), auth_key_bytes()))
}

/// The exact string that the comment checksum hashes: user name,
/// base64-encoded comment, level id, percentage, a literal zero, and
/// the salt, concatenated in that order.
pub open spec fn chk_input(
    user_name: Seq<char>,
    comment_b64: Seq<char>,
    level_id: u64,
    percent: u8,
    salt: Seq<char>,
) -> Seq<char> {
    user_name + comment_b64 + dec_str(level_id as nat) + dec_str(percent as nat) + seq!['0']
        + salt
}

/// The comment checksum: URL-safe base64 of the SHA-1 hex digest of
/// the checksum input, XOR-ed with the fixed key.
pub open spec fn comment_checksum_spec(
    user_name: Seq<char>,
    comment_b64: Seq<char>,
    level_id: u64,
    percent: u8,
    salt: Seq<char>,
) -> Seq<char> {
    b64_url_of(
        xor_seq(
            sha1_hex_of(encode_utf8(chk_input(user_name, comment_b64, level_id, percent, salt))),
            chk_key_bytes(),
        ),
    )
}

/// Builds the executable form of the fixed authentication key.
fn auth_key() -> (r: Vec<u8>)
    ensures
        r@ == auth_key_bytes(),
{
    let mut r: Vec<u8> = Vec::new();
    r.push(0x33);
    r.push(0x37);
    r.push(0x35);
    r.push(0x32);
    r.push(0x36);
    assert(r@ =~= auth_key_bytes());
    r
}

/// Builds the executable form of the fixed checksum key.
fn chk_key() -> (r: Vec<u8>)
    ensures
        r@ == chk_key_bytes(),
{
    let mut r: Vec<u8> = Vec::new();
    r.push(0x32);
    r.push(0x39);
    r.push(0x34);
    r.push(0x38);
    r.push(0x31);
    assert(r@ =~= chk_key_bytes());
    r
}

/// Derives the authentication token attached to authenticated
/// requests in place of the password.
pub fn auth_token(password: &str) -> (r: String)
    ensures
        r@ == auth_token_spec(password@),
{
    let mut data: Vec<u8> = slice_to_vec(password.as_bytes());
    let key = auth_key();
    cyclic_xor(&mut data, key.as_slice());
    b64_url_encode(data.as_slice())
}

/// Derives the `chk` checksum for a comment upload from the user
/// name, the already base64-encoded comment, the level id, the
/// percentage shown on the comment, and the salt.
pub fn comment_checksum(
    user_name: &str,
    comment_b64: &str,
    level_id: u64,
    percent: u8,
    salt: &str,
) -> (r: String)
    ensures
        r@ == comment_checksum_spec(user_name@, comment_b64@, level_id, percent, salt@),
{
    let mut input = String::new();
    input.append(user_name);
    input.append(comment_b64);
    let lid = u64_to_string(level_id);
    input.append(lid.as_str());
    let pct = u64_to_string(percent as u64);
    input.append(pct.as_str());
    push_char(&mut input, '0');
    input.append(salt);
    assert(input@ =~= chk_input(user_name@, comment_b64@, level_id, percent, salt@));
    let mut digest = sha1_hex(input.as_str().as_bytes());
    let key = chk_key();
    cyclic_xor(&mut digest, key.as_slice());
    b64_url_encode(digest.as_slice())
}

} // verus!
