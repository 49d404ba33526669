use std::collections::HashMap;

use rust_of_clans::errors::{ClientError, CoCClientError, ServerError, UnkownError};

fn not_found() -> ClientError {
    ClientError {
        reason: String::from("notFound"),
        message: None,
        error_type: None,
        detail: None,
    }
}

#[test]
fn client_error_text_with_absent_fields() {
    assert_eq!(
        not_found().display_text(),
        "Client error: Reason=notFound, Message=None, Type=None, Detail=None"
    );
}

#[test]
fn client_error_text_quotes_present_fields() {
    let mut detail = HashMap::new();
    detail.insert(String::from("key"), String::from("value"));
    let e = ClientError {
        reason: String::from("accessDenied"),
        message: Some(String::from("Invalid \"token\"")),
        error_type: Some(String::from("throttled")),
        detail: Some(detail),
    };
    assert_eq!(
        e.display_text(),
        "Client error: Reason=accessDenied, Message=Some(\"Invalid \\\"token\\\"\"), Type=Some(\"throttled\"), Detail=Some({\"key\": \"value\"})"
    );
}

#[test]
fn server_error_text() {
    let e = ServerError {
        reason: String::from("inMaintenance"),
        message: Some(String::from("back soon")),
        error_type: None,
        detail: None,
    };
    assert_eq!(
        e.display_text(),
        "Server error: Reason=inMaintenance, Message=Some(\"back soon\"), Type=None, Detail=None"
    );
}

#[test]
fn unknown_error_text() {
    assert_eq!(UnkownError {}.display_text(), "Unkown error");
}

#[test]
fn client_error_variant_texts() {
    assert_eq!(CoCClientError::MissingClientError.display_text(), "Client is missing in CoCClient");
    assert_eq!(CoCClientError::UnkownError.display_text(), "unkown error");
    assert_eq!(
        CoCClientError::ClientError(not_found()).display_text(),
        "Client error: Reason=notFound, Message=None, Type=None, Detail=None"
    );
    let server = ServerError {
        reason: String::from("unknownException"),
        message: None,
        error_type: None,
        detail: None,
    };
    assert_eq!(
        CoCClientError::ServerError(server).display_text(),
        "Server error: Reason=unknownException, Message=None, Type=None, Detail=None"
    );
}

#[test]
fn deserialization_error_text() {
    let err = serde_json::from_str::<u32>("not json").unwrap_err();
    let expected = format!("Deserialization error: {}", err);
    assert_eq!(CoCClientError::Deserlisation(err).display_text(), expected);
}
