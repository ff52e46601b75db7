//! Codec and keyed transform pipelines for a game backend's wire protocol.
//!
//! The service encodes records as flat, tag-indexed, separator-delimited
//! text; several fields carry secondary encodings (base64, percent
//! encoding), and a few payloads are wrapped in a cyclic XOR obfuscation
//! or gzip compression.  This crate provides:
//!
//! * byte/text transforms (cyclic XOR, decimal printing and parsing),
//! * lazy values that defer a secondary decode until first use,
//! * the indexed text codec and the record types built on it,
//! * the fixed keyed pipelines (authentication token, comment checksum,
//!   save-file decoding),
//! * the request types of the service's HTTP API together with their
//!   query-string serialization.
//!
//! Network and file I/O live outside this crate; everything here is a pure
//! function of its arguments.

pub mod codec;
pub mod color;
pub mod comment;
pub mod encodings;
pub mod error;
pub mod percent;
pub mod pipeline;
pub mod profile;
pub mod request;
pub mod savefile;
pub mod text;
pub mod thunk;
pub mod user;
pub mod transforms;
