//! The response materializer: turning an envelope and the acceptable
//! response formats into a transport response, falling back to a generic
//! server failure when encoding fails.

use vstd::prelude::*;

use crate::codec::encode_body;
use crate::codec::PayloadCodec;
use crate::negotiate::negotiate_response_content_type;
use crate::negotiate::spec_first_known;
use crate::negotiate::views_of;
use crate::negotiate::ContentType;
use crate::payload_error::PayloadError;
use crate::ricksponse::Ricksponse;

verus! {

/// A transport response: the numeric status, the wire format of the body
/// where one is present, and the body bytes.
#[derive(Debug, PartialEq)]
pub struct TransportResponse {
    pub status: u16,
    pub content_type: Option<ContentType>,
    pub body: Vec<u8>,
}

/// Whether a number is a transport status code.
pub open spec fn valid_status(code: u16) -> bool {
    100 <= code < 1000
}

/// The status a successful envelope is sent with: its explicit code where
/// that is a transport status, else 200.
pub open spec fn spec_data_status(http_code: Option<u16>) -> u16 {
    match http_code {
        Some(c) => if valid_status(c) {
            c
        } else {
            200
        },
        None => 200,
    }
}

/// The status a failed envelope is sent with: its explicit code where that
/// is a transport status, else the generic server failure 500.
pub open spec fn spec_error_status(http_code: Option<u16>) -> u16 {
    match http_code {
        Some(c) => if valid_status(c) {
            c
        } else {
            500
        },
        None => 500,
    }
}

/// The status a successful envelope is sent with.
pub fn data_status(http_code: Option<u16>) -> (r: u16)
    ensures
        r == spec_data_status(http_code),
{
    match http_code {
        Some(c) => if 100 <= c && c < 1000 {
            c
        } else {
            200
        },
        None => 200,
    }
}

/// The status a failed envelope is sent with.
pub fn error_status(http_code: Option<u16>) -> (r: u16)
    ensures
        r == spec_error_status(http_code),
{
    match http_code {
        Some(c) => if 100 <= c && c < 1000 {
            c
        } else {
            500
        },
        None => 500,
    }
}

/// Assemble the response for a successful envelope from the outcome of
/// encoding its payload: the encoded bytes under the negotiated wire
/// format, or the generic server failure with an empty body when encoding
/// failed — the payload is discarded, not retried.
pub fn assemble_data_response(
    status: u16,
    content_type: ContentType,
    encoded: Result<Vec<u8>, PayloadError>,
) -> (r: TransportResponse)
    ensures
        encoded matches Ok(bytes) ==> r == (TransportResponse {
            status,
            content_type: Some(content_type),
            body: bytes,
        }),
        encoded is Err ==> r.status == 500 && r.content_type is None && r.body@
            == Seq::<u8>::empty(),
{
    match encoded {
        Ok(body) => TransportResponse { status, content_type: Some(content_type), body },
        Err(_) => TransportResponse { status: 500, content_type: None, body: Vec::new() },
    }
}

impl<T: PayloadCodec> Ricksponse<T> {
    /// Materialize the envelope into a transport response, given the raw
    /// values of the acceptable-response-types header. A failed envelope is
    /// sent as a bare status with no body. A successful one is sent under
    /// the negotiated wire format, defaulting to JSON when no value is
    /// recognized; whether its payload encodes is the codec's decision, and
    /// an encoding failure degrades to the generic server failure with an
    /// empty body.
    pub fn respond_to(self, accept: &Vec<String>) -> (r: TransportResponse)
        ensures
            self matches Ricksponse::Error { http_code: h, .. } ==> r.status == spec_error_status(h)
                && r.content_type is None && r.body@ == Seq::<u8>::empty(),
            self matches Ricksponse::Data { http_code: h, .. } ==> {
                ||| (r.status == spec_data_status(h) && r.content_type == Some(
                    match spec_first_known(views_of(accept@)) {
                        Some(ct) => ct,
                        None => ContentType::Json,
                    },
                ))
                ||| (r.status == 500 && r.content_type is None && r.body@ == Seq::<u8>::empty())
            },
    {
        match self {
            Ricksponse::Error { http_code, .. } => {
                TransportResponse {
                    status: error_status(http_code),
                    content_type: None,
                    body: Vec::new(),
                }
            },
            Ricksponse::Data { data, http_code, .. } => {
                let content_type = negotiate_response_content_type(accept);
                let status = data_status(http_code);
                let encoded = encode_body(&data, &content_type);
                assemble_data_response(status, content_type, encoded)
            },
        }
    }
}

} // verus!
