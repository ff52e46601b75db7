use std::io::Write;

use base64::Engine;

use dash_rs::error::{AuthenticationError, CipherPrecondition, SavefileError};
use dash_rs::percent::{percent_decode, percent_encode};
use dash_rs::pipeline::{auth_token, comment_checksum};
use dash_rs::request::account::parse_login_response;
use dash_rs::savefile::decode_savefile;
use dash_rs::transforms::{cyclic_xor, xor};

#[test]
fn xor_involution() {
    let data = vec![0u8, 1, 2, 250, 255, 17, 42];
    let key = b"key";
    let once = xor(data.clone(), key).unwrap();
    let twice = xor(once, key).unwrap();
    assert_eq!(twice, data);

    let mut in_place = data.clone();
    cyclic_xor(&mut in_place, key);
    cyclic_xor(&mut in_place, key);
    assert_eq!(in_place, data);
}

#[test]
fn xor_output_values() {
    // 'a' ^ 'k' = 0x0a, 'b' ^ 'e' = 0x07, 'c' ^ 'y' = 0x1a, 'd' ^ 'k' = 0x0f.
    let out = xor(b"abcd".to_vec(), b"key").unwrap();
    assert_eq!(out, vec![0x0au8, 0x07, 0x1a, 0x0f]);
}

#[test]
fn cipher_precondition() {
    assert_eq!(xor(vec![1u8, 2, 3], &[]), Err(CipherPrecondition));
    assert_eq!(xor(Vec::new(), &[]), Err(CipherPrecondition));
}

#[test]
fn checksum_determinism() {
    let expected = "UQsGAAEACgQBVQBaAwoGVwtSDQIEWAYOUFEAVQoIBVtWDwEHDQEJVA==";
    let chk = comment_checksum(
        "TestUser",
        "VGhpcyBpcyBhIHRlc3QgY29tbWVudA==",
        85179632,
        56,
        "xPT6iUrtws0J",
    );
    assert_eq!(chk, expected);
    // The same inputs always give the same output.
    assert_eq!(
        comment_checksum(
            "TestUser",
            "VGhpcyBpcyBhIHRlc3QgY29tbWVudA==",
            85179632,
            56,
            "xPT6iUrtws0J"
        ),
        expected
    );
    // Changing any single input changes the output.
    assert_ne!(
        comment_checksum(
            "TestUser2",
            "VGhpcyBpcyBhIHRlc3QgY29tbWVudA==",
            85179632,
            56,
            "xPT6iUrtws0J"
        ),
        expected
    );
    assert_ne!(
        comment_checksum("TestUser", "VGhpcyBpcw==", 85179632, 56, "xPT6iUrtws0J"),
        expected
    );
    assert_ne!(
        comment_checksum(
            "TestUser",
            "VGhpcyBpcyBhIHRlc3QgY29tbWVudA==",
            85179633,
            56,
            "xPT6iUrtws0J"
        ),
        expected
    );
    assert_ne!(
        comment_checksum(
            "TestUser",
            "VGhpcyBpcyBhIHRlc3QgY29tbWVudA==",
            85179632,
            57,
            "xPT6iUrtws0J"
        ),
        expected
    );
    assert_ne!(
        comment_checksum(
            "TestUser",
            "VGhpcyBpcyBhIHRlc3QgY29tbWVudA==",
            85179632,
            56,
            "different salt"
        ),
        expected
    );
}

#[test]
fn auth_token_fixed_key() {
    // "ab" XOR "37526" is [0x52, 0x55], whose URL-safe base64 is "UlU=".
    assert_eq!(auth_token("ab"), "UlU=");
    assert_eq!(auth_token(""), "");
}

fn make_savefile(plain: &str) -> Vec<u8> {
    let mut encoder = flate2::write::GzEncoder::new(Vec::new(), flate2::Compression::default());
    encoder.write_all(plain.as_bytes()).unwrap();
    let compressed = encoder.finish().unwrap();
    let encoded = base64::engine::general_purpose::URL_SAFE.encode(&compressed);
    let mut bytes = encoded.into_bytes();
    for b in bytes.iter_mut() {
        *b ^= 0x0b;
    }
    bytes
}

#[test]
fn savefile_pipeline_round_trip() {
    let plain = "<plist><dict><k>valueKeeper</k></dict></plist>";
    let mut bytes = make_savefile(plain);
    // A 0x0b byte at the end of the file unobfuscates to a NUL, which
    // the pipeline strips before reading the base64.
    bytes.push(0x0b);
    bytes.push(0x0b);
    assert_eq!(decode_savefile(bytes).unwrap(), plain);
}

#[test]
fn savefile_stage_errors() {
    // Not base64 once unobfuscated.
    let bad_b64 = vec![b'!' ^ 0x0b, b'@' ^ 0x0b];
    assert_eq!(decode_savefile(bad_b64), Err(SavefileError::Base64));
    // Valid base64 of bytes that are not a gzip stream.
    let not_gzip = base64::engine::general_purpose::URL_SAFE.encode(b"plain");
    let mut bytes = not_gzip.into_bytes();
    for b in bytes.iter_mut() {
        *b ^= 0x0b;
    }
    assert_eq!(decode_savefile(bytes), Err(SavefileError::Gzip));
}

#[test]
fn percent_encoding_round_trip() {
    assert_eq!(percent_encode("a b/c"), "a%20b%2Fc");
    assert_eq!(percent_decode("a%20b%2Fc").unwrap(), "a b/c");
    // Unreserved characters pass through.
    assert_eq!(percent_encode("AZaz09-._"), "AZaz09-._");
    // Hex digits of either case decode.
    assert_eq!(percent_decode("%2f%2F").unwrap(), "//");
    // A malformed escape is an error.
    assert!(percent_decode("%2").is_err());
    assert!(percent_decode("%zz").is_err());
    // Non-ASCII text survives the round trip.
    let text = "caf\u{e9} \u{1F600}";
    assert_eq!(percent_decode(&percent_encode(text)).unwrap(), text);
}

#[test]
fn login_response_parsing() {
    let rejected = parse_login_response("TestUser", "hunter2", "-1");
    assert_eq!(
        rejected,
        Err(AuthenticationError {
            reason: String::from("invalid credentials")
        })
    );

    let user = parse_login_response("TestUser", "ab", "472634,99").unwrap();
    assert_eq!(user.user_name, "TestUser");
    assert_eq!(user.account_id, 472634);
    assert_eq!(user.password_hash, auth_token("ab"));

    let malformed = parse_login_response("TestUser", "ab", "oops");
    assert_eq!(
        malformed,
        Err(AuthenticationError {
            reason: String::from("malformed login response")
        })
    );
}
