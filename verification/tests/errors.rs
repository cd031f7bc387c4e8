//! Tests of the failure taxonomy: which transport status reports each
//! failure, and how failures are rendered.

use ricksponse::PayloadError;

#[test]
fn every_failure_maps_to_a_transport_status() {
    assert_eq!(PayloadError::ContentTypeUnrecognized.status_code(), 400);
    assert_eq!(PayloadError::OverflowKnownLength { length: 5, limit: 1 }.status_code(), 413);
    assert_eq!(PayloadError::Overflow { limit: 1 }.status_code(), 413);
    assert_eq!(PayloadError::UpstreamStreamError("reset".to_string()).status_code(), 400);
    assert_eq!(PayloadError::DecodeError("bad".to_string()).status_code(), 400);
    assert_eq!(PayloadError::EncodeError("bad".to_string()).status_code(), 500);
}

#[test]
fn failures_render_short_descriptions() {
    assert_eq!(PayloadError::ContentTypeUnrecognized.describe(), "content type error");
    assert_eq!(
        PayloadError::OverflowKnownLength { length: 5, limit: 1 }.describe(),
        "declared payload length exceeds the limit"
    );
    assert_eq!(PayloadError::Overflow { limit: 1 }.describe(), "payload has exceeded the limit");
}
