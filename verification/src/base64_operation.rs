//! Base64 encode/decode over byte sequences.
//!
//! The transform itself comes from the `base64` crate's standard-alphabet,
//! padded engine; this module shapes its inputs and outputs and maps its
//! failure into the shared error model.

use vstd::prelude::*;

use crate::byte_operation::ByteVec;
use crate::cresult::{CError, CResult};

verus! {

/// The standard-alphabet, padded base64 text of a byte sequence.
pub uninterp spec fn base64_of(b: Seq<u8>) -> Seq<char>;

/// The error class raised when a text cannot be decoded as base64.
pub open spec fn is_base64_decode_failure(e: CError) -> bool {
    &&& e.code == 1022
    &&& e.message@ == "cannot convert the base64 text to a byte sequence"@
    &&& e.other_info is None
}

/// The error constant for a text that is not valid base64.
pub fn cannot_convert_base64_string_to_byte_seq() -> (r: CError)
    ensures
        is_base64_decode_failure(r),
{
    CError::new(1022, "cannot convert the base64 text to a byte sequence")
}

/// Relies on `base64::engine::general_purpose::STANDARD.encode_string`: the
/// standard-alphabet, padded base64 encoding, a function of the bytes alone.
#[verifier::external_body]
fn encode_standard(bytes: &ByteVec) -> (r: String)
    ensures
        r@ == base64_of(bytes@),
{
    let mut buf = String::new();
    base64::Engine::encode_string(&base64::engine::general_purpose::STANDARD, bytes, &mut buf);
    buf
}

/// Relies on `base64::engine::general_purpose::STANDARD.decode_vec`: this
/// engine requires canonical padding and rejects set trailing bits, so it
/// accepts exactly the texts its own encoder produces, and inverts it.
#[verifier::external_body]
fn decode_standard(text: &str) -> (r: Option<ByteVec>)
    ensures
        match r {
            Some(v) => text@ == base64_of(v@) && (forall|b: Seq<u8>|
                text@ == base64_of(b) ==> v@ == b),
            None => forall|b: Seq<u8>| text@ != base64_of(b),
        },
{
    let mut buf = Vec::<u8>::new();
    match base64::Engine::decode_vec(&base64::engine::general_purpose::STANDARD, text, &mut buf) {
        Ok(()) => Some(buf),
        Err(_) => None,
    }
}

/// Conversion between a byte sequence and its base64 text.
///
/// `to_base64_string` is total and deterministic; `from_base64_string`
/// succeeds exactly on the texts the encoder produces and inverts it, and
/// fails with the base64 decode error on every other text.
pub trait Base64Operation: View<V = Seq<u8>> {
    /// Encode the byte sequence as standard-alphabet, padded base64 text.
    fn to_base64_string(&self) -> (r: String)
        ensures
            r@ == base64_of(self@),
    ;

    /// Decode standard-alphabet base64 text into a byte sequence.
    fn from_base64_string(b64str: &str) -> (r: CResult<Self>) where Self: Sized
        ensures
            match r {
                Ok(v) => b64str@ == base64_of(v@) && (forall|b: Seq<u8>|
                    b64str@ == base64_of(b) ==> v@ == b),
                Err(e) => is_base64_decode_failure(e) && (forall|b: Seq<u8>|
                    b64str@ != base64_of(b)),
            },
    ;
}

impl Base64Operation for ByteVec {
    fn to_base64_string(&self) -> (r: String) {
        encode_standard(self)
    }

    fn from_base64_string(b64str: &str) -> (r: CResult<ByteVec>) {
        match decode_standard(b64str) {
            Some(v) => Ok(v),
            None => cannot_convert_base64_string_to_byte_seq().to_cresult(),
        }
    }
}

/// Decoding the base64 text of a byte sequence always succeeds and gives back
/// a sequence equal to the original.
pub fn base64_round_trip(bytes: &ByteVec) -> (r: ByteVec)
    ensures
        r@ == bytes@,
{
    let text = bytes.to_base64_string();
    match ByteVec::from_base64_string(text.as_str()) {
        Ok(v) => v,
        Err(_) => {
            proof {
                assert(false);
            }
            ByteVec::new()
        },
    }
}

} // verus!
