//! Construction of shared strings from raw bytes, and the text-scalar
//! serialization contract.
//!
//! A value serializes as a plain JSON text scalar identical to its
//! content — no wrapper object, no type tag. Deserialization accepts a
//! text scalar, and raw byte input is validated as UTF-8 before a value
//! is built from it; invalid bytes are the one failure of the library.

use vstd::prelude::*;

verus! {

use vstd::utf8::{decode_utf8, valid_utf8};
use crate::RcString;

/// The single failure kind: byte input that does not decode as valid
/// text.
#[derive(Clone, Copy, Debug, PartialEq, Eq, Structural)]
pub struct InvalidEncoding;

/// Relies on `str::from_utf8`: it succeeds exactly on valid UTF-8 input
/// and borrows the decoded text.
#[verifier::external_body]
fn utf8_to_str(v: &[u8]) -> (r: Option<&str>)
    ensures
        match r {
            Some(s) => valid_utf8(v@) && s@ == decode_utf8(v@),
            None => !valid_utf8(v@),
        },
{
    core::str::from_utf8(v).ok()
}

/// The JSON text produced by serializing the given text as a scalar: a
/// function of the characters alone.
pub uninterp spec fn json_text_of(s: Seq<char>) -> Seq<char>;

/// Relies on `serde_json::to_string` on a text slice. Serializing a text
/// slice cannot fail: `to_string` errors only on maps with non-text keys
/// or on `Serialize` impls that fail, and the impl for `str` does
/// neither.
#[verifier::external_body]
fn json_encode_str(s: &str) -> (r: String)
    ensures
        r@ == json_text_of(s@),
{
    serde_json::to_string(s).unwrap()
}

/// Relies on `serde_json::from_str` at type `String`: parsing the
/// `serde_json` serialization of a text restores that text verbatim.
#[verifier::external_body]
fn json_decode_str(s: &str) -> (r: Option<String>)
    ensures
        r is None ==> forall|t: Seq<char>| s@ != json_text_of(t),
        r matches Some(v) ==> forall|t: Seq<char>| s@ == json_text_of(t) ==> v@ == t,
{
    serde_json::from_str::<String>(s).ok()
}

impl RcString {
    /// Builds a value from raw bytes, validating them as text. Succeeds
    /// exactly on valid UTF-8 input, restoring the decoded text into a
    /// fresh buffer; anything else is rejected as `InvalidEncoding`.
    pub fn from_utf8_bytes(v: &[u8]) -> (r: Result<RcString, InvalidEncoding>)
        ensures
            match r {
                Ok(rs) => valid_utf8(v@) && rs@ == decode_utf8(v@),
                Err(e) => !valid_utf8(v@) && e == InvalidEncoding,
            },
    {
        match utf8_to_str(v) {
            Some(s) => Ok(RcString::new(s)),
            None => Err(InvalidEncoding),
        }
    }

    /// Serializes the value as a plain text scalar: the `serde_json`
    /// encoding of the referenced text, with no structural wrapping.
    pub fn to_json(&self) -> (r: String)
        ensures
            r@ == json_text_of(self@),
    {
        json_encode_str(self.as_str())
    }

    /// Deserializes a value from a text scalar: input that is the
    /// serialization of a text restores that text verbatim into a fresh
    /// buffer.
    pub fn from_json(s: &str) -> (r: Option<RcString>)
        ensures
            r is None ==> forall|t: Seq<char>| s@ != json_text_of(t),
            r matches Some(v) ==> forall|t: Seq<char>| s@ == json_text_of(t) ==> v@ == t,
    {
        match json_decode_str(s) {
            Some(owned) => Some(RcString::new(owned.as_str())),
            None => None,
        }
    }
}

} // verus!
