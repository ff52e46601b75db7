//! Lazy values: a cell holding either raw encoded text, not yet
//! decoded, or the decoded logical value.
//!
//! An unprocessed value serializes back to its original text
//! verbatim, which keeps untouched fields byte-identical across a
//! round trip; a processed value re-encodes, which may differ from
//! the text it came from (padding, escape choice) and is canonical
//! for the value.  Forcing is an explicit, idempotent state
//! transition; a failed decode leaves the value unchanged.

use vstd::prelude::*;
use vstd::utf8::{decode_utf8, encode_utf8, valid_utf8};

use crate::encodings::{
    b64_std_decode, b64_std_decode_of, b64_std_encode, b64_std_of, is_b64_std_char,
    string_from_utf8,
};
use crate::error::DecodeError;
use crate::percent::{percent_decode, percent_decode_spec, percent_encode, percent_encode_spec};

verus! {

/// A secondary-encoding policy: how raw field text maps to a logical
/// value and back.  The mechanism of the lazy value is the same for
/// either.
#[derive(Debug, Clone, Copy, PartialEq, Eq, Structural)]
pub enum Policy {
    /// Standard-alphabet base64 whose decoded bytes are UTF-8 text;
    /// used for comment and message bodies.
    Base64,
    /// Percent encoding; used for certain text fields.
    Percent,
}

/// What decoding raw text under a policy yields, when it decodes.
pub open spec fn policy_decode_spec(p: Policy, raw: Seq<char>) -> Option<Seq<char>> {
    match p {
        Policy::Base64 => match b64_std_decode_of(encode_utf8(raw)) {
            Option::None => Option::None,
            Option::Some(b) => if valid_utf8(b) {
                Option::Some(decode_utf8(b))
            } else {
                Option::None
            },
        },
        Policy::Percent => percent_decode_spec(raw),
    }
}

/// The canonical encoding of a logical value under a policy.
pub open spec fn policy_encode_spec(p: Policy, v: Seq<char>) -> Seq<char> {
    match p {
        Policy::Base64 => b64_std_of(encode_utf8(v)),
        Policy::Percent => percent_encode_spec(v),
    }
}

/// A lazy value: raw text awaiting its secondary decode, or the
/// decoded value.  A value built from caller-supplied data starts
/// processed.
#[derive(Debug, Clone, PartialEq, Eq)]
pub enum Thunk {
    /// Raw encoded text, exactly as it stood in the wire text.
    Unprocessed(String),
    /// The decoded logical value.
    Processed(String),
}

/// The mathematical view of a lazy value: the same two states over
/// character sequences.
pub enum ThunkV {
    /// Raw encoded text, not yet decoded.
    Unprocessed(Seq<char>),
    /// The decoded logical value.
    Processed(Seq<char>),
}

impl ThunkV {
    /// The logical value this view denotes under `p`.
    pub open spec fn logical(self, p: Policy) -> Option<Seq<char>> {
        match self {
            ThunkV::Unprocessed(raw) => policy_decode_spec(p, raw),
            ThunkV::Processed(v) => Option::Some(v),
        }
    }

    /// The text this view serializes to under `p`.
    pub open spec fn serialized(self, p: Policy) -> Seq<char> {
        match self {
            ThunkV::Unprocessed(raw) => raw,
            ThunkV::Processed(v) => policy_encode_spec(p, v),
        }
    }
}

impl View for Thunk {
    type V = ThunkV;

    open spec fn view(&self) -> ThunkV {
        match self {
            Thunk::Unprocessed(raw) => ThunkV::Unprocessed(raw@),
            Thunk::Processed(v) => ThunkV::Processed(v@),
        }
    }
}

/// A borrowing view of a lazy value, used only on the output path to
/// write a record without taking ownership of its fields.
#[derive(Debug, Clone, Copy)]
pub enum ThunkRef<'a> {
    /// Borrowed raw text.
    Raw(&'a String),
    /// A borrowed decoded value.
    Value(&'a String),
}

impl Thunk {
    /// The logical value this cell denotes under `p`: the stored
    /// value when processed, what the raw text decodes to otherwise.
    pub open spec fn logical(&self, p: Policy) -> Option<Seq<char>> {
        match self {
            Thunk::Unprocessed(raw) => policy_decode_spec(p, raw@),
            Thunk::Processed(v) => Option::Some(v@),
        }
    }

    /// The text this cell serializes to under `p`: the raw text
    /// verbatim when unprocessed, the canonical encoding of the value
    /// otherwise.
    pub open spec fn serialized(&self, p: Policy) -> Seq<char> {
        match self {
            Thunk::Unprocessed(raw) => raw@,
            Thunk::Processed(v) => policy_encode_spec(p, v@),
        }
    }

    /// Builds a processed cell directly from a logical value.
    pub fn from_value(v: String) -> (t: Thunk)
        ensures
            t == Thunk::Processed(v),
    {
        Thunk::Processed(v)
    }

    /// Wraps raw encoded text, deferring its decode.
    pub fn from_raw(raw: String) -> (t: Thunk)
        ensures
            t == Thunk::Unprocessed(raw),
    {
        Thunk::Unprocessed(raw)
    }

    /// Decodes the raw text under `p` if this cell is unprocessed,
    /// replacing it with the decoded value.  Idempotent: forcing a
    /// processed cell does nothing.  On failure the cell is left
    /// unchanged and no state is lost.
    pub fn force(&mut self, p: Policy) -> (r: Result<(), DecodeError>)
        ensures
            *old(self) is Processed ==> r is Ok && *final(self) == *old(self),
            (*old(self) is Unprocessed && old(self).logical(p) is Some) ==> {
                &&& r is Ok
                &&& *final(self) is Processed
                &&& (*final(self))->Processed_0@ == old(self).logical(p)->Some_0
            },
            (*old(self) is Unprocessed && old(self).logical(p) is None) ==> (r == Result::<(),
            DecodeError>::Err(DecodeError::SecondaryDecode) && *final(self) == *old(self)),
    {
        let raw: String = match &*self {
            Thunk::Processed(_) => {
                return Ok(());
            },
            Thunk::Unprocessed(raw) => raw.clone(),
        };
        match policy_decode(p, raw.as_str()) {
            Ok(v) => {
                *self = Thunk::Processed(v);
                Ok(())
            },
            Err(e) => Err(e),
        }
    }

    /// The decoded value of a processed cell.
    pub fn processed_value(&self) -> (r: &String)
        requires
            self is Processed,
        ensures
            r == self->Processed_0,
    {
        match self {
            Thunk::Processed(v) => v,
            Thunk::Unprocessed(_) => vstd::pervasive::unreached(),
        }
    }

    /// Borrows this cell for the output path.
    pub fn as_output_view(&self) -> (r: ThunkRef<'_>)
        ensures
            forall|p: Policy| r.serialized(p) == self.serialized(p),
            self is Processed <==> r is Value,
            self is Processed ==> r->Value_0 == self->Processed_0,
            self is Unprocessed ==> r->Raw_0 == self->Unprocessed_0,
    {
        match self {
            Thunk::Unprocessed(raw) => ThunkRef::Raw(raw),
            Thunk::Processed(v) => ThunkRef::Value(v),
        }
    }

    /// Appends this cell's serialized text to `out`; see
    /// [`ThunkRef::write`].
    pub fn write(&self, out: &mut String, p: Policy)
        ensures
            final(out)@ == old(out)@ + self.serialized(p),
            (self is Processed && p == Policy::Base64) ==> (b64_std_decode_of(
                encode_utf8(self.serialized(p)),
            ) == Option::Some(encode_utf8(self->Processed_0@)) && forall|i: int|
                0 <= i < self.serialized(p).len() ==> is_b64_std_char(
                    #[trigger] self.serialized(p)[i],
                )),
    {
        let view = self.as_output_view();
        view.write(out, p);
    }
}

impl<'a> ThunkRef<'a> {
    /// The text this view serializes to under `p`.
    pub open spec fn serialized(&self, p: Policy) -> Seq<char> {
        match self {
            ThunkRef::Raw(raw) => raw@,
            ThunkRef::Value(v) => policy_encode_spec(p, v@),
        }
    }

    /// Appends the serialized text to `out`: raw text verbatim for an
    /// unprocessed view, the canonical encoding of the value
    /// otherwise.  For a written base64 value this also records that
    /// decoding the emitted text gives the value back, and that every
    /// emitted character belongs to the base64 alphabet.
    pub fn write(&self, out: &mut String, p: Policy)
        ensures
            final(out)@ == old(out)@ + self.serialized(p),
            (self is Value && p == Policy::Base64) ==> (b64_std_decode_of(
                encode_utf8(self.serialized(p)),
            ) == Option::Some(encode_utf8(self->Value_0@)) && forall|i: int|
                0 <= i < self.serialized(p).len() ==> is_b64_std_char(
                    #[trigger] self.serialized(p)[i],
                )),
    {
        match self {
            ThunkRef::Raw(raw) => {
                out.append(raw.as_str());
            },
            ThunkRef::Value(v) => match p {
                Policy::Base64 => {
                    let enc = b64_std_encode(v.as_str().as_bytes());
                    out.append(enc.as_str());
                },
                Policy::Percent => {
                    let enc = percent_encode(v.as_str());
                    out.append(enc.as_str());
                },
            },
        }
    }
}

/// Decodes raw field text under a policy: the decoded value, or the
/// secondary-decode error exactly when the text does not decode.
pub fn policy_decode(p: Policy, raw: &str) -> (r: Result<String, DecodeError>)
    ensures
        match (r, policy_decode_spec(p, raw@)) {
            (Result::Ok(s), Option::Some(v)) => s@ == v,
            (Result::Err(e), Option::None) => e == DecodeError::SecondaryDecode,
            _ => false,
        },
{
    match p {
        Policy::Base64 => {
            let bytes = match b64_std_decode(raw.as_bytes()) {
                Ok(b) => b,
                Err(_) => {
                    return Err(DecodeError::SecondaryDecode);
                },
            };
            match string_from_utf8(bytes) {
                Ok(s) => Ok(s),
                Err(_) => Err(DecodeError::SecondaryDecode),
            }
        },
        Policy::Percent => match percent_decode(raw) {
            Ok(s) => Ok(s),
            Err(_) => Err(DecodeError::SecondaryDecode),
        },
    }
}


/// Under the base64 policy, decoding the canonical encoding of a
/// value gives the value back, once the engine's own byte-level
/// round trip is known for it.
pub(crate) proof fn lemma_b64_policy_round_trip(v: Seq<char>)
    requires
        b64_std_decode_of(encode_utf8(policy_encode_spec(Policy::Base64, v))) == Option::Some(
            encode_utf8(v),
        ),
    ensures
        policy_decode_spec(Policy::Base64, policy_encode_spec(Policy::Base64, v)) == Option::Some(
            v,
        ),
{
    vstd::utf8::encode_utf8_valid_utf8(v);
    vstd::utf8::encode_utf8_decode_utf8(v);
}

} // verus!
