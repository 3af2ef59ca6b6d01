//! Decoding of the response envelopes that a sub-call's reply carries.
//!
//! The two envelope shapes are protobuf messages that the host writes; their
//! decoding is done by `cw_utils`. Each decoder's outcome is named here as a
//! function of the envelope bytes: `None` when the bytes are malformed,
//! `Some(inner)` with the optional inner data payload when they are not.

use vstd::prelude::*;

use cw_utils::ParseReplyError;

verus! {

/// What `cw_utils::parse_instantiate_response_data` yields on the given bytes.
pub uninterp spec fn instantiate_envelope(b: Seq<u8>) -> Option<Option<Seq<u8>>>;

/// What `cw_utils::parse_execute_response_data` yields on the given bytes.
pub uninterp spec fn execute_envelope(b: Seq<u8>) -> Option<Option<Seq<u8>>>;

/// The view of an optional byte vector.
pub open spec fn opt_bytes(d: Option<Vec<u8>>) -> Option<Seq<u8>> {
    match d {
        Some(v) => Some(v@),
        None => None,
    }
}

/// Relies on `cw_utils::parse_instantiate_response_data`: decodes an
/// instantiate-style envelope and keeps its optional `data` field. The result
/// depends on the bytes alone.
#[verifier::external_body]
pub(crate) fn parse_instantiate_data(b: &[u8]) -> (r: Result<Option<Vec<u8>>, ParseReplyError>)
    ensures
        r is Ok <==> instantiate_envelope(b@) is Some,
        r matches Ok(d) ==> instantiate_envelope(b@) == Some(opt_bytes(d)),
{
    cw_utils::parse_instantiate_response_data(b).map(|m| m.data.map(|d| d.0))
}

/// Relies on `cw_utils::parse_execute_response_data`: decodes an
/// execute-style envelope and keeps its optional `data` field. The result
/// depends on the bytes alone.
#[verifier::external_body]
pub(crate) fn parse_execute_data(b: &[u8]) -> (r: Result<Option<Vec<u8>>, ParseReplyError>)
    ensures
        r is Ok <==> execute_envelope(b@) is Some,
        r matches Ok(d) ==> execute_envelope(b@) == Some(opt_bytes(d)),
{
    cw_utils::parse_execute_response_data(b).map(|m| m.data.map(|d| d.0))
}

/// Relies on the `Display` impl of `cw_utils::ParseReplyError`, for the text
/// that a decoding failure reports.
#[verifier::external_body]
pub(crate) fn parse_error_text(e: &ParseReplyError) -> (r: String) {
    e.to_string()
}

} // verus!
