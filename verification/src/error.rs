//! Errors raised while checking the timestamp inherent, and their wire
//! form: a tagged union whose first byte alone tells a fatal rejection
//! from a non-fatal deferral.

use vstd::prelude::*;
use vstd::bytes::{
    lemma_auto_spec_u64_to_from_le_bytes, spec_u64_from_le_bytes, spec_u64_to_le_bytes,
    u64_from_le_bytes, u64_to_le_bytes,
};
use vstd::slice::{slice_subrange, slice_to_vec};
use vstd::utf8::{
    decode_utf8, encode_utf8, encode_utf8_decode_utf8, encode_utf8_valid_utf8, valid_utf8,
};
use crate::ids_equal;
use crate::INHERENT_IDENTIFIER;

verus! {

/// Errors that can occur while checking the timestamp inherent.
#[derive(Clone, Debug, PartialEq, Eq)]
pub enum InherentError {
    /// The timestamp is valid, but only at the carried time. This is
    /// non-fatal: checking of other inherents goes on, and the block may
    /// become acceptable later.
    ValidAtTimestamp(u64),
    /// Some other error; fatal, the block is refused outright.
    Other(String),
}

/// The mathematical shape of an `InherentError`: the carried string is a
/// sequence of characters.
pub enum ErrorModel {
    ValidAtTimestamp(u64),
    Other(Seq<char>),
}

impl View for InherentError {
    type V = ErrorModel;

    open spec fn view(&self) -> ErrorModel {
        match self {
            InherentError::ValidAtTimestamp(t) => ErrorModel::ValidAtTimestamp(*t),
            InherentError::Other(s) => ErrorModel::Other(s@),
        }
    }
}

/// The wire form of an error: a tag byte, then for a deferral the time as
/// eight little-endian bytes, and for a fatal error the reason in UTF-8.
pub open spec fn spec_encode_error(e: ErrorModel) -> Seq<u8> {
    match e {
        ErrorModel::ValidAtTimestamp(t) => seq![0u8] + spec_u64_to_le_bytes(t),
        ErrorModel::Other(s) => seq![1u8] + encode_utf8(s),
    }
}

/// The unique error a byte string stands for, if any.
pub open spec fn spec_decode_error(b: Seq<u8>) -> Option<ErrorModel> {
    if b.len() == 9 && b[0] == 0 {
        Some(ErrorModel::ValidAtTimestamp(spec_u64_from_le_bytes(b.subrange(1, 9))))
    } else if b.len() >= 1 && b[0] == 1 && valid_utf8(b.subrange(1, b.len() as int)) {
        Some(ErrorModel::Other(decode_utf8(b.subrange(1, b.len() as int))))
    } else {
        None
    }
}

/// Relies on `String::from_utf8`: it returns the string read from the given
/// bytes exactly when they are valid UTF-8, and fails otherwise.
#[verifier::external_body]
fn string_from_utf8(bytes: Vec<u8>) -> (r: Option<String>)
    ensures
        r is Some <==> valid_utf8(bytes@),
        r matches Some(s) ==> s@ == decode_utf8(bytes@),
{
    String::from_utf8(bytes).ok()
}

impl InherentError {
    /// Whether this error must stop the whole inherent-checking pipeline.
    /// A deferral is not fatal; everything else is.
    pub fn is_fatal_error(&self) -> (r: bool)
        ensures
            r == (self is Other),
    {
        match self {
            InherentError::ValidAtTimestamp(_) => false,
            InherentError::Other(_) => true,
        }
    }

    /// The wire form of this error.
    pub fn encode(&self) -> (r: Vec<u8>)
        ensures
            r@ == spec_encode_error(self@),
    {
        match self {
            InherentError::ValidAtTimestamp(t) => {
                let mut v: Vec<u8> = Vec::new();
                v.push(0u8);
                let mut payload = u64_to_le_bytes(*t);
                v.append(&mut payload);
                proof {
                    assert(v@ =~= spec_encode_error(self@));
                }
                v
            },
            InherentError::Other(s) => {
                let mut v: Vec<u8> = Vec::new();
                v.push(1u8);
                let mut payload = slice_to_vec(s.as_str().as_bytes());
                v.append(&mut payload);
                proof {
                    assert(v@ =~= spec_encode_error(self@));
                }
                v
            },
        }
    }

    /// Reads an error back from its wire form; `None` if the bytes do not
    /// stand for one.
    pub fn decode(data: &[u8]) -> (r: Option<InherentError>)
        ensures
            r is Some <==> spec_decode_error(data@) is Some,
            r matches Some(e) ==> spec_decode_error(data@) == Some(e@),
    {
        if data.len() == 0 {
            return None;
        }
        let tag = data[0];
        if tag == 0 {
            if data.len() == 9 {
                let payload = slice_subrange(data, 1, 9);
                Some(InherentError::ValidAtTimestamp(u64_from_le_bytes(payload)))
            } else {
                None
            }
        } else if tag == 1 {
            let rest = slice_to_vec(slice_subrange(data, 1, data.len()));
            match string_from_utf8(rest) {
                Some(s) => Some(InherentError::Other(s)),
                None => None,
            }
        } else {
            None
        }
    }

    /// Try to read an error out of the given identifier and wire data;
    /// data under any other identifier is not ours to interpret.
    pub fn try_from(id: &[u8; 8], data: &[u8]) -> (r: Option<InherentError>)
        ensures
            id@ != INHERENT_IDENTIFIER@ ==> r is None,
            id@ == INHERENT_IDENTIFIER@ ==> (r is Some <==> spec_decode_error(data@) is Some),
            id@ == INHERENT_IDENTIFIER@ ==> (r matches Some(e) ==> spec_decode_error(data@)
                == Some(e@)),
    {
        if ids_equal(id, &INHERENT_IDENTIFIER) {
            InherentError::decode(data)
        } else {
            None
        }
    }
}

/// The fatal/non-fatal distinction can be recovered from the first byte of
/// the wire form alone, without decoding the full value.
pub proof fn lemma_fatality_from_tag(e: ErrorModel)
    ensures
        spec_encode_error(e).len() >= 1,
        (spec_encode_error(e)[0] == 1) <==> (e is Other),
{
    lemma_auto_spec_u64_to_from_le_bytes();
}

/// Encoding an error and reading it back yields the error itself: the wire
/// form loses nothing.
pub proof fn lemma_error_codec_round_trip(e: ErrorModel)
    ensures
        spec_decode_error(spec_encode_error(e)) == Some(e),
{
    let b = spec_encode_error(e);
    match e {
        ErrorModel::ValidAtTimestamp(t) => {
            lemma_auto_spec_u64_to_from_le_bytes();
            assert(b.len() == 9 && b[0] == 0);
            assert(b.subrange(1, 9) =~= spec_u64_to_le_bytes(t));
        },
        ErrorModel::Other(s) => {
            encode_utf8_valid_utf8(s);
            encode_utf8_decode_utf8(s);
            assert(b.subrange(1, b.len() as int) =~= encode_utf8(s));
            assert(b[0] == 1);
        },
    }
}

} // verus!
