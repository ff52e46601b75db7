//! Error types for decoding, ciphering and the save-file pipeline.

use vstd::prelude::*;

verus! {

/// An error produced while decoding a record from its wire text.
///
/// Decoding is all-or-nothing: when any of these is returned, no
/// partially populated record exists.
#[derive(Debug, Clone, Copy, PartialEq, Eq, Structural)]
pub enum DecodeError {
    /// The separator structure is malformed: an odd number of tokens
    /// in alternating mode, or a field without a tag/value separator
    /// in dual-separator mode.
    Tokenization,
    /// A tag token did not parse as an unsigned integer.
    NonNumericTag,
    /// A tag the schema declares as required is absent; holds the tag.
    MissingRequiredField(u64),
    /// The value of the given tag does not parse as the declared
    /// scalar kind (a non-numeric integer field, a color value without
    /// exactly three comma-separated numeric components, and so on).
    ValueParse(u64),
    /// A secondary decode (base64 or percent encoding) inside a lazy
    /// value failed.
    SecondaryDecode,
}

/// The error signalled by the cyclic XOR cipher when its key is empty.
#[derive(Debug, Clone, Copy, PartialEq, Eq, Structural)]
pub struct CipherPrecondition;

/// An error of the save-file decode pipeline, tagged by the stage that
/// failed.  No partial output accompanies any of these.
#[derive(Debug, Clone, Copy, PartialEq, Eq, Structural)]
pub enum SavefileError {
    /// Reading the file failed.  Only the I/O layer around this crate
    /// constructs this variant.
    Io,
    /// The unobfuscated payload is not valid base64.
    Base64,
    /// The decompression stage rejected the payload: not a gzip
    /// stream, or the inflated bytes are not text.
    Gzip,
}

/// An error produced while turning a login response into an
/// authenticated user: the service rejected the credentials, or its
/// response did not have the expected shape.
#[derive(Debug, Clone, PartialEq, Eq)]
pub struct AuthenticationError {
    /// A short description of what went wrong.
    pub reason: String,
}

impl AuthenticationError {
    /// The description carried by this error.
    pub fn message(&self) -> (r: String)
        ensures
            r@ == self.reason@,
    {
        self.reason.clone()
    }
}

} // verus!
