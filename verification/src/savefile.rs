//! The local save-file decode pipeline: cyclic XOR with a one-byte
//! key, trailing-NUL stripping, URL-safe base64, gzip inflation.
//!
//! Reading the file itself is I/O and stays outside this crate; this
//! module decodes the bytes once read.

use vstd::prelude::*;

use crate::encodings::{b64_url_decode, b64_url_decode_of, gunzip_text_of, gunzip_to_string};
use crate::error::SavefileError;
use crate::transforms::{cyclic_xor, xor_seq};

verus! {

/// The one-byte key the save file is XOR-ed with.
pub open spec fn savefile_key_bytes() -> Seq<u8> {
    seq![0x0bu8]
}

/// `s` with every trailing NUL byte removed.
pub open spec fn strip_trailing_nuls(s: Seq<u8>) -> Seq<u8>
    decreases s.len(),
{
    if s.len() > 0 && s.last() == 0 {
        strip_trailing_nuls(s.drop_last())
    } else {
        s
    }
}

/// What decoding a save file's bytes yields: the inflated text, or
/// the first stage that rejects its input.  The stages run in fixed
/// order: XOR, NUL stripping, base64, gzip.
pub open spec fn decode_savefile_spec(bytes: Seq<u8>) -> Result<Seq<char>, SavefileError> {
    let unobfuscated = strip_trailing_nuls(xor_seq(bytes, savefile_key_bytes()));
    match b64_url_decode_of(unobfuscated) {
        Option::None => Result::Err(SavefileError::Base64),
        Option::Some(compressed) => match gunzip_text_of(compressed) {
            Option::None => Result::Err(SavefileError::Gzip),
            Option::Some(text) => Result::Ok(text),
        },
    }
}

/// Decodes the bytes of a save file into its plain text.  Each
/// stage's failure is a distinct error and no partial output is ever
/// returned.  The decoded text is itself a structured format whose
/// parsing is out of this crate's scope.
pub fn decode_savefile(bytes: Vec<u8>) -> (r: Result<String, SavefileError>)
    ensures
        match (r, decode_savefile_spec(bytes@)) {
            (Result::Ok(s), Result::Ok(t)) => s@ == t,
            (Result::Err(e), Result::Err(f)) => e == f,
            _ => false,
        },
{
    let mut data = bytes;
    let mut key: Vec<u8> = Vec::new();
    key.push(0x0b);
    assert(key@ =~= savefile_key_bytes());
    cyclic_xor(&mut data, key.as_slice());
    let ghost unobfuscated = data@;
    while data.len() > 0 && data[data.len() - 1] == 0
        invariant
            strip_trailing_nuls(data@) == strip_trailing_nuls(unobfuscated),
        decreases data@.len(),
    {
        let ghost before = data@;
        data.pop();
        proof {
            assert(data@ =~= before.drop_last());
        }
    }
    proof {
        assert(strip_trailing_nuls(data@) == data@);
    }
    let compressed = match b64_url_decode(data.as_slice()) {
        Ok(v) => v,
        Err(_) => {
            return Err(SavefileError::Base64);
        },
    };
    match gunzip_to_string(compressed.as_slice()) {
        Ok(text) => Ok(text),
        Err(_) => Err(SavefileError::Gzip),
    }
}

} // verus!
