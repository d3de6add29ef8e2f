use happy_project::http::StatusCode;
use happy_project::utils::mongo_errors::{
    classify, log_line, mongo_errors, ErrorResponse, FailureKind, StoreError,
};

fn failure(kind: FailureKind) -> StoreError {
    StoreError { kind, text: String::from("Kind: rendered, labels: {}") }
}

fn detail() -> String {
    String::from("store detail")
}

fn answer(kind: FailureKind) -> ErrorResponse {
    match mongo_errors(failure(kind)) {
        Err(response) => response,
        Ok(()) => panic!("a failure was answered as a success"),
    }
}

fn expect(kind: FailureKind, status: StatusCode, code: u16, message: &str) {
    let response = answer(kind);
    assert_eq!(response.status, status);
    assert_eq!(response.status.as_u16(), code);
    assert_eq!(response.message, message);
    assert!(!response.status.is_success());
}

#[test]
fn invalid_argument_is_bad_request_with_detail() {
    expect(
        FailureKind::InvalidArgument { message: detail() },
        StatusCode::BadRequest,
        400,
        "store detail",
    );
}

#[test]
fn authentication_is_unauthorized_with_detail() {
    expect(
        FailureKind::Authentication { message: detail() },
        StatusCode::Unauthorized,
        401,
        "store detail",
    );
}

#[test]
fn bson_deserialization_is_internal_with_rendering() {
    expect(
        FailureKind::BsonDeserialization,
        StatusCode::InternalServerError,
        500,
        "Kind: rendered, labels: {}",
    );
}

#[test]
fn bson_serialization_is_internal_with_rendering() {
    expect(
        FailureKind::BsonSerialization,
        StatusCode::InternalServerError,
        500,
        "Kind: rendered, labels: {}",
    );
}

#[test]
fn bulk_write_is_internal_with_rendering() {
    expect(
        FailureKind::BulkWrite,
        StatusCode::InternalServerError,
        500,
        "Kind: rendered, labels: {}",
    );
}

#[test]
fn command_is_internal_with_rendering() {
    expect(
        FailureKind::Command,
        StatusCode::InternalServerError,
        500,
        "Kind: rendered, labels: {}",
    );
}

#[test]
fn dns_resolve_is_internal_with_detail() {
    expect(
        FailureKind::DnsResolve { message: detail() },
        StatusCode::InternalServerError,
        500,
        "store detail",
    );
}

#[test]
fn internal_is_internal_with_detail() {
    expect(
        FailureKind::Internal { message: detail() },
        StatusCode::InternalServerError,
        500,
        "store detail",
    );
}

#[test]
fn io_is_internal_with_rendering() {
    expect(FailureKind::Io, StatusCode::InternalServerError, 500, "Kind: rendered, labels: {}");
}

#[test]
fn connection_pool_cleared_is_internal_with_detail() {
    expect(
        FailureKind::ConnectionPoolCleared { message: detail() },
        StatusCode::InternalServerError,
        500,
        "store detail",
    );
}

#[test]
fn invalid_response_is_internal_with_detail() {
    expect(
        FailureKind::InvalidResponse { message: detail() },
        StatusCode::InternalServerError,
        500,
        "store detail",
    );
}

#[test]
fn server_selection_is_internal_with_detail() {
    expect(
        FailureKind::ServerSelection { message: detail() },
        StatusCode::InternalServerError,
        500,
        "store detail",
    );
}

#[test]
fn sessions_not_supported_is_internal_with_rendering() {
    expect(
        FailureKind::SessionsNotSupported,
        StatusCode::InternalServerError,
        500,
        "Kind: rendered, labels: {}",
    );
}

#[test]
fn invalid_tls_config_is_internal_with_detail() {
    expect(
        FailureKind::InvalidTlsConfig { message: detail() },
        StatusCode::InternalServerError,
        500,
        "store detail",
    );
}

#[test]
fn write_is_internal_with_rendering() {
    expect(FailureKind::Write, StatusCode::InternalServerError, 500, "Kind: rendered, labels: {}");
}

#[test]
fn transaction_is_internal_with_detail() {
    expect(
        FailureKind::Transaction { message: detail() },
        StatusCode::InternalServerError,
        500,
        "store detail",
    );
}

#[test]
fn incompatible_server_is_internal_with_detail() {
    expect(
        FailureKind::IncompatibleServer { message: detail() },
        StatusCode::InternalServerError,
        500,
        "store detail",
    );
}

#[test]
fn unknown_is_internal_with_rendering() {
    expect(
        FailureKind::Unknown,
        StatusCode::InternalServerError,
        500,
        "Kind: rendered, labels: {}",
    );
}

#[test]
fn classifier_never_answers_ok() {
    let kinds = vec![
        FailureKind::InvalidArgument { message: detail() },
        FailureKind::Authentication { message: detail() },
        FailureKind::BsonDeserialization,
        FailureKind::BsonSerialization,
        FailureKind::BulkWrite,
        FailureKind::Command,
        FailureKind::DnsResolve { message: detail() },
        FailureKind::Internal { message: detail() },
        FailureKind::Io,
        FailureKind::ConnectionPoolCleared { message: detail() },
        FailureKind::InvalidResponse { message: detail() },
        FailureKind::ServerSelection { message: detail() },
        FailureKind::SessionsNotSupported,
        FailureKind::InvalidTlsConfig { message: detail() },
        FailureKind::Write,
        FailureKind::Transaction { message: detail() },
        FailureKind::IncompatibleServer { message: detail() },
        FailureKind::Unknown,
    ];
    assert_eq!(kinds.len(), 18);
    for kind in kinds {
        let result = mongo_errors(failure(kind));
        assert!(result.is_err());
        let response = result.unwrap_err();
        assert!(matches!(response.status.as_u16(), 400 | 401 | 500));
    }
}

#[test]
fn only_two_categories_are_the_clients_fault() {
    assert!(answer(FailureKind::InvalidArgument { message: detail() }).status.is_client_error());
    assert!(answer(FailureKind::Authentication { message: detail() }).status.is_client_error());
    assert!(answer(FailureKind::Command).status.is_server_error());
    assert!(answer(FailureKind::Transaction { message: detail() }).status.is_server_error());
    assert!(!answer(FailureKind::Unknown).status.is_client_error());
}

#[test]
fn empty_detail_is_relayed_as_it_is() {
    let response = answer(FailureKind::Internal { message: String::new() });
    assert_eq!(response.status, StatusCode::InternalServerError);
    assert_eq!(response.message, "");
}

#[test]
fn classify_agrees_with_mongo_errors() {
    let one = classify(failure(FailureKind::Authentication { message: detail() }));
    let other = mongo_errors(failure(FailureKind::Authentication { message: detail() }));
    assert_eq!(other, Err(one));
    let one = classify(failure(FailureKind::Write));
    assert_eq!(
        one,
        ErrorResponse {
            status: StatusCode::InternalServerError,
            message: String::from("Kind: rendered, labels: {}"),
        }
    );
}

#[test]
fn log_line_is_the_rendering_even_where_the_message_is_the_detail() {
    let e = failure(FailureKind::InvalidArgument { message: detail() });
    assert_eq!(log_line(&e), "Kind: rendered, labels: {}");
    assert_eq!(classify(e).message, "store detail");
}

#[test]
fn malformed_record_is_answered_with_400_and_a_message() {
    let e = StoreError {
        kind: FailureKind::InvalidArgument {
            message: String::from("invalid type: string \"x\", expected u64"),
        },
        text: String::from(
            "Kind: An invalid argument was provided: invalid type: string \"x\", expected u64, labels: {}",
        ),
    };
    let response = classify(e);
    assert_eq!(response.status.as_u16(), 400);
    assert!(!response.message.is_empty());
    assert_eq!(response.message, "invalid type: string \"x\", expected u64");
}
