//! Checking that the bytes of a resource form one JSON document.
use vstd::prelude::*;

use crate::bucket::BucketError;

verus! {

#[verifier::external_type_specification]
#[verifier::external_body]
pub struct ExJsonValue(serde_json::Value);

#[verifier::external_type_specification]
#[verifier::external_body]
pub struct ExJsonError(serde_json::Error);

/// Whether serde_json accepts `bytes` as exactly one JSON value, with nothing
/// but whitespace after it.
pub uninterp spec fn json_accepts(bytes: Seq<u8>) -> bool;

/// Relies on `serde_json::from_slice::<serde_json::Value>`: it succeeds on the
/// bytes of one JSON value and fails on anything else, empty input included
/// (an end-of-input error).
#[verifier::external_body]
fn parse_json(bytes: &[u8]) -> (r: Result<serde_json::Value, serde_json::Error>)
    ensures
        r is Ok <==> json_accepts(bytes@),
        bytes@.len() == 0 ==> r is Err,
{
    serde_json::from_slice(bytes)
}

/// Reads the content of a resource as one JSON document. Bytes that are not
/// one are a `Decode` failure, never an access failure.
pub fn decode_document(bytes: &[u8]) -> (r: Result<serde_json::Value, BucketError>)
    ensures
        r is Ok <==> json_accepts(bytes@),
        r matches Err(e) ==> e is Decode,
        bytes@.len() == 0 ==> r is Err,
{
    match parse_json(bytes) {
        Ok(v) => Ok(v),
        Err(e) => Err(BucketError::Decode(e.to_string())),
    }
}


/// Reads a resource from what came of fetching its bytes: a fetch that failed
/// (with the given message) is an `Io` failure; fetched bytes are then decoded
/// as by `decode_document`.
pub fn decode_resource(fetched: Result<Vec<u8>, String>) -> (r: Result<serde_json::Value, BucketError>)
    ensures
        fetched matches Err(msg) ==> r matches Err(e) && e == BucketError::Io(msg),
        fetched matches Ok(b) ==> (r is Ok <==> json_accepts(b@)),
        fetched matches Ok(b) ==> (r matches Err(e) ==> e is Decode),
{
    match fetched {
        Ok(bytes) => decode_document(bytes.as_slice()),
        Err(msg) => Err(BucketError::Io(msg)),
    }
}

} // verus!
