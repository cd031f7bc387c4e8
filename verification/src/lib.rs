//! A request/response payload pipeline: content-type negotiation, bounded
//! body aggregation, codec dispatch, and a uniform response envelope with an
//! optional resource-document projection.

use vstd::prelude::*;

pub mod body;
pub mod codec;
pub mod negotiate;
pub mod payload_error;
pub mod respond;
pub mod response;
pub mod ricksponse;
pub mod status_codes;

pub use body::RicksponseBody;
pub use codec::Payload;
pub use codec::PayloadCodec;
pub use negotiate::ContentType;
pub use payload_error::DebuggableAny;
pub use payload_error::OpaqueError;
pub use payload_error::PayloadError;
pub use respond::TransportResponse;
pub use ricksponse::Response;
pub use ricksponse::Ricksponse;

verus! {

/// Default cap, in bytes, on an aggregated request body.
pub const DEFAULT_BODY_LIMIT: usize = 41_943_040;

} // verus!
