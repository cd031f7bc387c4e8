//! Tests of the response envelope: constructors, in-place status edits,
//! promotion from error to data, and the projection into a resource
//! document.

use ricksponse::response::Status;
use ricksponse::DebuggableAny;
use ricksponse::Response;
use ricksponse::Ricksponse;

#[test]
fn test_status_codes() {
    let ricksponse_continue = Ricksponse::CONTINUE(());
    let response_continue = Response::CONTINUE(());
    match ricksponse_continue {
        Ricksponse::Data { http_code, message, .. } => {
            assert_eq!(http_code, Some(100));
            assert_eq!(message.as_deref(), Some("Continue"));
        },
        Ricksponse::Error { .. } => panic!("a convenience constructor builds a data envelope"),
    }
    match response_continue {
        Ricksponse::Data { http_code, .. } => assert_eq!(http_code, Some(100)),
        Ricksponse::Error { .. } => panic!("a convenience constructor builds a data envelope"),
    }
}

#[test]
fn constructors_carry_code_and_message() {
    match Ricksponse::new("x") {
        Ricksponse::Data { data, http_code, message } => {
            assert_eq!(data, "x");
            assert_eq!(http_code, None);
            assert_eq!(message, None);
        },
        Ricksponse::Error { .. } => panic!("new builds a data envelope"),
    }
    match Ricksponse::new_with_http("x", 201) {
        Ricksponse::Data { http_code, message, .. } => {
            assert_eq!(http_code, Some(201));
            assert_eq!(message, None);
        },
        Ricksponse::Error { .. } => panic!("new_with_http builds a data envelope"),
    }
    match Ricksponse::new_with_http_and_message("x", 418, "teapot") {
        Ricksponse::Data { http_code, message, .. } => {
            assert_eq!(http_code, Some(418));
            assert_eq!(message.as_deref(), Some("teapot"));
        },
        Ricksponse::Error { .. } => panic!("new_with_http_and_message builds a data envelope"),
    }
}

#[test]
fn setters_edit_active_variant_in_place() {
    let mut env = Ricksponse::new(1u32);
    env.http_code(204);
    env.message("done".to_string());
    match env {
        Ricksponse::Data { data, http_code, message } => {
            assert_eq!(data, 1);
            assert_eq!(http_code, Some(204));
            assert_eq!(message.as_deref(), Some("done"));
        },
        Ricksponse::Error { .. } => panic!("setters keep the variant"),
    }
}

#[test]
fn get_or_with_data_promotes_and_is_idempotent() {
    let mut env: Ricksponse<u32> = Ricksponse::Error {
        error: None,
        http_code: Some(404),
        message: Some("missing".to_string()),
    };

    let first = *env.get_or_with_data(7);
    assert_eq!(first, 7);

    // A second promotion returns the very payload the first one installed,
    // and the envelope keeps the carried-over code and message.
    let second = *env.get_or_with_data(9);
    assert_eq!(second, 7);
    match &env {
        Ricksponse::Data { data, http_code, message } => {
            assert_eq!(*data, 7);
            assert_eq!(*http_code, Some(404));
            assert_eq!(message.as_deref(), Some("missing"));
        },
        Ricksponse::Error { .. } => panic!("promotion never leaves an error envelope"),
    }
}

struct TestFault;

impl DebuggableAny for TestFault {
    fn debug_text(&self) -> String {
        "boom".to_string()
    }
}

#[test]
fn from_result_renders_the_error() {
    let ok: Ricksponse<u32> = Ricksponse::from_result(Ok::<u32, TestFault>(3));
    match ok {
        Ricksponse::Data { data, http_code, message } => {
            assert_eq!(data, 3);
            assert_eq!(http_code, None);
            assert_eq!(message, None);
        },
        Ricksponse::Error { .. } => panic!("a success becomes a data envelope"),
    }

    let err: Ricksponse<u32> = Ricksponse::from_result(Err::<u32, TestFault>(TestFault));
    match err {
        Ricksponse::Error { error, http_code, message } => {
            assert_eq!(http_code, None);
            assert_eq!(message.as_deref(), Some("boom"));
            let opaque = error.expect("the error rides in the envelope");
            assert_eq!(opaque.text, "boom");
            assert_eq!(opaque.payload, None);
        },
        Ricksponse::Data { .. } => panic!("a failure becomes an error envelope"),
    }
}

#[test]
fn into_result_unwraps_both_variants() {
    let data: Ricksponse<u32> = Ricksponse::new(5);
    assert_eq!(data.into_result().ok(), Some(5));

    let err: Ricksponse<u32> = Ricksponse::Error { error: None, http_code: None, message: None };
    match err.into_result() {
        Err(opaque) => assert!(opaque.is_none()),
        Ok(_) => panic!("an error envelope unwraps to an error"),
    }
}

#[test]
fn not_found_projects_to_status_block() {
    let env = Ricksponse::NOT_FOUND(());
    let doc_env = env.to_hateoas_response();
    match doc_env {
        Ricksponse::Data { data: doc, .. } => {
            assert_eq!(doc.api_version, "Unknown.invalid/0.0.0");
            assert_eq!(doc.kind, "");
            assert_eq!(
                doc.status,
                Some(Status::new(Some("Not Found".to_string()), None, Some(404), None))
            );
            let section = doc.spec.expect("a data envelope fills the payload section");
            assert_eq!(section.get_content(), &Some(()));
        },
        Ricksponse::Error { .. } => panic!("projection yields a data envelope"),
    }
}

#[test]
fn error_projection_keeps_code_and_message() {
    let env: Ricksponse<u32> = Ricksponse::Error {
        error: None,
        http_code: Some(410),
        message: Some("gone".to_string()),
    };
    match env.to_hateoas_response() {
        Ricksponse::Data { data: doc, http_code, message } => {
            assert_eq!(http_code, Some(410));
            assert_eq!(message.as_deref(), Some("gone"));
            assert_eq!(doc.spec, None);
            assert_eq!(
                doc.status,
                Some(Status::new(Some("gone".to_string()), None, Some(410), None))
            );
        },
        Ricksponse::Error { .. } => panic!("projection yields a data envelope"),
    }
}

#[test]
fn as_response_promotes_to_default_document() {
    let mut env: Ricksponse<ricksponse::response::HateoasResponse<u32>> = Ricksponse::Error {
        error: None,
        http_code: Some(500),
        message: None,
    };
    let doc = env.as_response();
    assert_eq!(doc.api_version, "");
    assert_eq!(doc.status, None);
    match env {
        Ricksponse::Data { http_code, .. } => assert_eq!(http_code, Some(500)),
        Ricksponse::Error { .. } => panic!("as_response never leaves an error envelope"),
    }
}
