//! The fetch orchestrator's decision logic. A fetch is a linear pipeline
//! with two fan-out points: URI and header validation before dispatch,
//! and header/body transcoding after it. The two branches of each
//! fan-out touch disjoint inputs, so their order is irrelevant; the join
//! propagates the first failure and never surfaces a partial result.
//! The dispatch itself — the one blocking network operation — is the
//! caller's transport and stands outside this module.

use vstd::prelude::*;

use crate::error::Error;
use crate::error::ErrorKind;
use crate::headers::headers_model;
use crate::headers::pair_valid;
use crate::headers::pairs_view;
use crate::headers::parse_headers;
use crate::headers::ValidatedHeaders;
use crate::uri::parse_uri;
use crate::uri::uri_acceptable;
use crate::uri::uri_parse_of;
use crate::uri::ValidatedUri;

verus! {

/// Every raw header pair passes validation.
pub open spec fn headers_all_valid(rv: Seq<(Seq<char>, Seq<char>)>) -> bool {
    forall|i: int| 0 <= i < rv.len() ==> pair_valid(#[trigger] rv[i])
}

/// The validation fan-in: the URI and the header map are validated
/// independently, and the request goes forward only when both pass.
///
/// A failure carries the kind of the stage that rejected its input: when
/// the headers are valid and only the URI is corrupt, the error is a URI
/// error and never a header error, and the other way round.
pub fn validate_request(req_uri: &str, raw_headers: &Vec<(String, String)>) -> (r: Result<
    (ValidatedUri, ValidatedHeaders),
    Error,
>)
    ensures
        r is Ok <==> (uri_acceptable(req_uri@) && headers_all_valid(pairs_view(raw_headers@))),
        r matches Ok(p) ==> {
            &&& uri_parse_of(req_uri@) matches Some(q)
            &&& p.0@.0 == q.0
            &&& Some(p.0@.1) == q.1
            &&& Some(p.0@.2) == q.2
            &&& p.0.wf()
            &&& p.1@ == headers_model(pairs_view(raw_headers@))
            &&& p.1.wf()
        },
        r matches Err(e) ==> (!uri_acceptable(req_uri@) ==> e.kind == ErrorKind::MalformedUri
            || e.kind == ErrorKind::EmptyScheme),
        r matches Err(e) ==> (uri_acceptable(req_uri@) ==> e.kind == ErrorKind::InvalidHeaderName
            || e.kind == ErrorKind::InvalidHeaderValue),
{
    let uri = match parse_uri(req_uri) {
        Ok(u) => u,
        Err(e) => {
            return Err(e);
        },
    };
    let headers = match parse_headers(raw_headers) {
        Ok(h) => h,
        Err(e) => {
            return Err(e);
        },
    };
    Ok((uri, headers))
}

} // verus!
