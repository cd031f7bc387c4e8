//! End-to-end tests of the inbound and outbound pipeline: negotiation,
//! bounded aggregation, codec dispatch, and response materialization, with
//! the real codecs supplied through `simple_serde`.

use ricksponse::codec::extract;
use ricksponse::codec::parse_content_length;
use ricksponse::negotiate::first_known;
use ricksponse::negotiate::negotiate;
use ricksponse::negotiate::negotiate_request_content_type;
use ricksponse::negotiate::negotiate_response_content_type;
use ricksponse::ContentType;
use ricksponse::PayloadCodec;
use ricksponse::PayloadError;
use ricksponse::Ricksponse;
use ricksponse::RicksponseBody;
use simple_serde::SimpleDecoder;
use simple_serde::SimpleEncoder;

fn simple_content_type(ct: &ContentType) -> simple_serde::ContentType {
    match ct {
        ContentType::Bson => simple_serde::ContentType::Bson,
        ContentType::Json => simple_serde::ContentType::Json,
        ContentType::Json5 => simple_serde::ContentType::Json5,
        ContentType::Ron => simple_serde::ContentType::Ron,
        ContentType::Toml => simple_serde::ContentType::Toml,
        ContentType::QueryString => simple_serde::ContentType::QueryString,
        ContentType::Yaml => simple_serde::ContentType::Yaml,
    }
}

/// A payload carried as a structured JSON value, encoded and decoded by the
/// `simple_serde` codec table.
#[derive(Debug, Clone, PartialEq)]
struct JsonPayload(serde_json::Value);

impl PayloadCodec for JsonPayload {
    fn decode_payload(bytes: &[u8], content_type: &ContentType) -> Result<JsonPayload, String> {
        let decoded: simple_serde::Decoded<serde_json::Value> = bytes
            .decode(simple_content_type(content_type))
            .map_err(|e| format!("{:?}", e))?;
        Ok(JsonPayload(decoded.into()))
    }

    fn encode_payload(&self, content_type: &ContentType) -> Result<Vec<u8>, String> {
        let encoded = self
            .0
            .encode(simple_content_type(content_type))
            .map_err(|e| format!("{:?}", e))?;
        Ok((*encoded).clone())
    }
}

fn username_value() -> serde_json::Value {
    let mut map = serde_json::Map::new();
    map.insert("username".to_string(), serde_json::Value::String("a".to_string()));
    serde_json::Value::Object(map)
}

#[test]
fn negotiation_keeps_known_types_in_order() {
    let values = vec![
        "application/x-nonsense".to_string(),
        "application/json".to_string(),
        "yaml".to_string(),
    ];
    assert_eq!(negotiate(&values), vec![ContentType::Json, ContentType::Yaml]);
    assert_eq!(first_known(&values), Some(ContentType::Json));
}

#[test]
fn negotiation_is_case_insensitive() {
    let values = vec!["Application/JSON".to_string()];
    assert_eq!(first_known(&values), Some(ContentType::Json));
}

#[test]
fn inbound_negotiation_rejects_all_unknown() {
    let values = vec!["application/x-nonsense".to_string()];
    match negotiate_request_content_type(&values) {
        Err(PayloadError::ContentTypeUnrecognized) => {},
        other => panic!("expected the unrecognized-content-type failure, got {:?}", other),
    }
}

#[test]
fn outbound_negotiation_defaults_to_json() {
    assert_eq!(negotiate_response_content_type(&vec![]), ContentType::Json);
    assert_eq!(
        negotiate_response_content_type(&vec!["application/x-nonsense".to_string()]),
        ContentType::Json
    );
    assert_eq!(
        negotiate_response_content_type(&vec!["application/yaml".to_string()]),
        ContentType::Yaml
    );
}

#[test]
fn content_length_parsing() {
    assert_eq!(parse_content_length(b"123"), Some(123));
    assert_eq!(parse_content_length(b"+42"), Some(42));
    assert_eq!(parse_content_length(b"0"), Some(0));
    assert_eq!(parse_content_length(b""), None);
    assert_eq!(parse_content_length(b"+"), None);
    assert_eq!(parse_content_length(b"12a"), None);
    assert_eq!(parse_content_length(b"-1"), None);
    assert_eq!(parse_content_length(b"18446744073709551615"), Some(usize::MAX));
    assert_eq!(parse_content_length(b"18446744073709551616"), None);
}

#[test]
fn declared_length_over_limit_fails_before_any_read() {
    let body = RicksponseBody::new(&vec!["application/json".to_string()], Some(5000)).limit(1024);
    match body.finish() {
        Err(e) => {
            assert_eq!(e.status_code(), 413);
            assert!(matches!(e, PayloadError::OverflowKnownLength { length: 5000, limit: 1024 }));
        },
        Ok(_) => panic!("a declared length over the limit is a pre-flight failure"),
    }
}

#[test]
fn unrecognized_content_type_fails_before_any_read() {
    let body = RicksponseBody::new(&vec!["application/x-nonsense".to_string()], None);
    match body.finish() {
        Err(e) => {
            assert_eq!(e.status_code(), 400);
            assert!(matches!(e, PayloadError::ContentTypeUnrecognized));
        },
        Ok(_) => panic!("an unrecognized body type is a pre-flight failure"),
    }
}

#[test]
fn aggregation_within_limit_yields_all_bytes() {
    let mut body = RicksponseBody::new(&vec!["application/json".to_string()], None).limit(10);
    body.consume_all(&vec![b"aaaa".to_vec(), b"bbbb".to_vec()]);
    match body.finish() {
        Ok((bytes, ct)) => {
            assert_eq!(bytes, b"aaaabbbb".to_vec());
            assert_eq!(ct, ContentType::Json);
        },
        Err(e) => panic!("eight bytes fit under a limit of ten: {:?}", e),
    }
}

#[test]
fn aggregation_fails_at_the_chunk_that_exceeds_the_limit() {
    // The same stream, cut one chunk earlier, still completes: the failure
    // arises exactly at the third chunk, where the running total first
    // exceeds the limit.
    let mut shorter = RicksponseBody::new(&vec!["application/json".to_string()], None).limit(10);
    shorter.consume_all(&vec![b"aaaa".to_vec(), b"bbbb".to_vec()]);
    assert!(shorter.finish().is_ok());

    let mut body = RicksponseBody::new(&vec!["application/json".to_string()], None).limit(10);
    body.consume_all(&vec![b"aaaa".to_vec(), b"bbbb".to_vec(), b"cccc".to_vec()]);
    match body.finish() {
        Err(e) => {
            assert_eq!(e.status_code(), 413);
            assert!(matches!(e, PayloadError::Overflow { limit: 10 }));
        },
        Ok(_) => panic!("twelve bytes exceed a limit of ten"),
    }
}

#[test]
fn a_chunk_landing_exactly_on_the_limit_fits() {
    let mut body = RicksponseBody::new(&vec!["application/json".to_string()], None).limit(8);
    body.consume_all(&vec![b"aaaa".to_vec(), b"bbbb".to_vec()]);
    match body.finish() {
        Ok((bytes, _)) => assert_eq!(bytes.len(), 8),
        Err(e) => panic!("a body of exactly the limit fits: {:?}", e),
    }
}

#[test]
fn a_failed_aggregator_discards_further_input() {
    let mut body = RicksponseBody::new(&vec!["application/json".to_string()], None).limit(4);
    body.push_chunk(b"aaaaaaaa");
    body.push_chunk(b"b");
    match body.finish() {
        Err(e) => assert!(matches!(e, PayloadError::Overflow { limit: 4 })),
        Ok(_) => panic!("an overflowed aggregator stays failed"),
    }
}

#[test]
fn negotiation_of_an_empty_list_is_empty() {
    assert_eq!(negotiate(&vec![]), vec![]);
    assert_eq!(first_known(&vec![]), None);
}

#[test]
fn response_can_be_materialized_in_yaml() {
    let env = Ricksponse::new(JsonPayload(username_value()));
    let response = env.respond_to(&vec!["application/yaml".to_string()]);
    assert_eq!(response.status, 200);
    assert_eq!(response.content_type, Some(ContentType::Yaml));
    let text = String::from_utf8(response.body).expect("yaml is text");
    assert_eq!(text, "username: a\n");
}

#[test]
fn stream_failure_is_propagated() {
    let mut body = RicksponseBody::new(&vec!["application/json".to_string()], None);
    body.push_chunk(b"partial");
    body.stream_failed("connection reset".to_string());
    match body.finish() {
        Err(PayloadError::UpstreamStreamError(detail)) => {
            assert_eq!(detail, "connection reset");
        },
        other => panic!("expected the upstream failure, got {:?}", other),
    }
}

#[test]
fn scenario_json_request_round_trip() {
    let content_types = vec!["application/json".to_string()];
    let declared = parse_content_length(b"16");
    assert_eq!(declared, Some(16));

    let mut body = RicksponseBody::new(&content_types, declared).limit(1024);
    body.push_chunk(br#"{"username":"a"}"#);
    let env: Ricksponse<JsonPayload> = extract(body);
    let value = match env {
        Ricksponse::Data { data, http_code, message } => {
            assert_eq!(http_code, None);
            assert_eq!(message, None);
            data
        },
        Ricksponse::Error { error, .. } => panic!("a well-formed body decodes: {:?}", error),
    };
    assert_eq!(value.0, username_value());

    // The handler hands the value back; the response carries its JSON
    // encoding under the negotiated format.
    let accept = vec!["application/json".to_string()];
    let response = Ricksponse::new(value.clone()).respond_to(&accept);
    assert_eq!(response.status, 200);
    assert_eq!(response.content_type, Some(ContentType::Json));
    assert_eq!(response.body, serde_json::to_vec(&username_value()).unwrap());
}

#[test]
fn malformed_body_surfaces_a_decode_failure() {
    let mut body = RicksponseBody::new(&vec!["application/json".to_string()], None);
    body.push_chunk(b"{not json");
    let env: Ricksponse<JsonPayload> = extract(body);
    match env {
        Ricksponse::Error { error, message, .. } => {
            assert_eq!(message.as_deref(), Some("decode error"));
            let opaque = error.expect("the failure rides in the envelope");
            assert!(matches!(opaque.payload, Some(PayloadError::DecodeError(_))));
        },
        Ricksponse::Data { .. } => panic!("a malformed body does not decode"),
    }
}

#[test]
fn codec_round_trip_for_every_supported_format() {
    // The query-string codec refuses a structured value as its
    // deserialization target, so it cannot complete this trip for this
    // payload type and stays out of the list.
    let v0 = JsonPayload(username_value());
    let formats = [
        ContentType::Json,
        ContentType::Json5,
        ContentType::Yaml,
        ContentType::Toml,
        ContentType::Ron,
        ContentType::Bson,
    ];
    for ct in formats {
        let bytes = v0.encode_payload(&ct).expect("a plain object encodes");
        let v1 = JsonPayload::decode_payload(&bytes, &ct).expect("its encoding decodes");
        let bytes2 = v1.encode_payload(&ct).expect("a decoded value re-encodes");
        let v2 = JsonPayload::decode_payload(&bytes2, &ct).expect("the re-encoding decodes");
        assert_eq!(v1, v2);
    }
}

#[test]
fn error_envelopes_materialize_without_a_body() {
    let env: Ricksponse<JsonPayload> = Ricksponse::Error {
        error: None,
        http_code: Some(404),
        message: None,
    };
    let response = env.respond_to(&vec!["application/json".to_string()]);
    assert_eq!(response.status, 404);
    assert_eq!(response.content_type, None);
    assert!(response.body.is_empty());

    let env: Ricksponse<JsonPayload> = Ricksponse::Error {
        error: None,
        http_code: None,
        message: None,
    };
    let response = env.respond_to(&vec![]);
    assert_eq!(response.status, 500);
    assert!(response.body.is_empty());
}

#[test]
fn invalid_status_codes_fall_back_per_variant() {
    let data: Ricksponse<JsonPayload> = Ricksponse::new_with_http(JsonPayload(username_value()), 99);
    assert_eq!(data.respond_to(&vec![]).status, 200);

    let err: Ricksponse<JsonPayload> = Ricksponse::Error {
        error: None,
        http_code: Some(9999),
        message: None,
    };
    assert_eq!(err.respond_to(&vec![]).status, 500);
}

/// A payload whose codec table refuses every encoding.
#[derive(Debug)]
struct Unencodable;

impl PayloadCodec for Unencodable {
    fn decode_payload(_bytes: &[u8], _content_type: &ContentType) -> Result<Unencodable, String> {
        Err("never decodes".to_string())
    }

    fn encode_payload(&self, _content_type: &ContentType) -> Result<Vec<u8>, String> {
        Err("never encodes".to_string())
    }
}

#[test]
fn encode_failure_degrades_to_generic_server_failure() {
    let env = Ricksponse::new_with_http(Unencodable, 200);
    let response = env.respond_to(&vec!["application/json".to_string()]);
    assert_eq!(response.status, 500);
    assert_eq!(response.content_type, None);
    assert!(response.body.is_empty());
}
