//! Classification of store failures into client-facing HTTP errors.
//!
//! Only two failure categories are the client's to correct: an invalid
//! argument (400) and a rejected authentication (401). Every other failure is
//! an operational concern and is answered with 500. The message is the detail
//! the store supplied with the failure where the category carries one, and the
//! failure's textual rendering otherwise.

use vstd::prelude::*;
use crate::http::StatusCode;

verus! {

/// The failure categories of the document store, as this service tells them
/// apart. A category that the store adds later arrives as `Unknown` until it
/// gets a variant of its own.
#[derive(Clone, Debug, PartialEq, Eq)]
pub enum FailureKind {
    /// The store layer accepted a malformed or invalid input.
    InvalidArgument { message: String },
    /// The store rejected the credentials.
    Authentication { message: String },
    /// A document that came back from the store could not be decoded.
    BsonDeserialization,
    /// A record could not be encoded for the store.
    BsonSerialization,
    /// A write of several records failed.
    BulkWrite,
    /// The store answered a command with an error.
    Command,
    /// The store's address could not be resolved.
    DnsResolve { message: String },
    /// A fault inside the store connector.
    Internal { message: String },
    /// The connection to the store failed.
    Io,
    /// The connection pool was cleared while the operation ran.
    ConnectionPoolCleared { message: String },
    /// The store's reply was malformed.
    InvalidResponse { message: String },
    /// No server could be selected in time.
    ServerSelection { message: String },
    /// The deployment does not support sessions.
    SessionsNotSupported,
    /// The TLS configuration is invalid.
    InvalidTlsConfig { message: String },
    /// A write of one record failed.
    Write,
    /// A transaction failed.
    Transaction { message: String },
    /// The server's version does not support the operation.
    IncompatibleServer { message: String },
    /// Any failure that has no category of its own.
    Unknown,
}

/// One failed store operation: its category and its default textual
/// rendering.
#[derive(Clone, Debug, PartialEq, Eq)]
pub struct StoreError {
    pub kind: FailureKind,
    pub text: String,
}

/// The terminal answer to a request whose store operation failed.
#[derive(Clone, Debug, PartialEq, Eq)]
pub struct ErrorResponse {
    pub status: StatusCode,
    pub message: String,
}

impl FailureKind {
    /// The status a failure of this category is answered with.
    pub open spec fn status(self) -> StatusCode {
        if self is InvalidArgument {
            StatusCode::BadRequest
        } else if self is Authentication {
            StatusCode::Unauthorized
        } else {
            StatusCode::InternalServerError
        }
    }

    /// The detail that the store supplied with the failure, for the
    /// categories that carry one.
    pub open spec fn detail(self) -> Option<Seq<char>> {
        match self {
            FailureKind::InvalidArgument { message } => Some(message@),
            FailureKind::Authentication { message } => Some(message@),
            FailureKind::DnsResolve { message } => Some(message@),
            FailureKind::Internal { message } => Some(message@),
            FailureKind::ConnectionPoolCleared { message } => Some(message@),
            FailureKind::InvalidResponse { message } => Some(message@),
            FailureKind::ServerSelection { message } => Some(message@),
            FailureKind::InvalidTlsConfig { message } => Some(message@),
            FailureKind::Transaction { message } => Some(message@),
            FailureKind::IncompatibleServer { message } => Some(message@),
            FailureKind::BsonDeserialization => None,
            FailureKind::BsonSerialization => None,
            FailureKind::BulkWrite => None,
            FailureKind::Command => None,
            FailureKind::Io => None,
            FailureKind::SessionsNotSupported => None,
            FailureKind::Write => None,
            FailureKind::Unknown => None,
        }
    }
}

impl StoreError {
    /// The status this failure is answered with.
    pub open spec fn status(self) -> StatusCode {
        self.kind.status()
    }

    /// The message the client receives: the store's detail where there is
    /// one, else the rendering of the failure.
    pub open spec fn message(self) -> Seq<char> {
        match self.kind.detail() {
            Some(detail) => detail,
            None => self.text@,
        }
    }
}

/// The line that is written to the server's log for a failure, before it is
/// classified: the failure's full rendering, whatever its category.
pub fn log_line(e: &StoreError) -> (line: String)
    ensures
        line@ == e.text@,
{
    e.text.clone()
}

/// Classifies a store failure. The answer is always an error: its status is
/// 400, 401 or 500 by the failure's category, and its message is
/// `e.message()`.
pub fn mongo_errors(e: StoreError) -> (r: Result<(), ErrorResponse>)
    ensures
        r matches Err(response) && response.status == e.status() && response.message@
            == e.message(),
{
    let StoreError { kind, text } = e;
    match kind {
        FailureKind::InvalidArgument { message } => Err(
            ErrorResponse { status: StatusCode::BadRequest, message },
        ),
        FailureKind::Authentication { message } => Err(
            ErrorResponse { status: StatusCode::Unauthorized, message },
        ),
        FailureKind::BsonDeserialization => Err(
            ErrorResponse { status: StatusCode::InternalServerError, message: text },
        ),
        FailureKind::BsonSerialization => Err(
            ErrorResponse { status: StatusCode::InternalServerError, message: text },
        ),
        FailureKind::BulkWrite => Err(
            ErrorResponse { status: StatusCode::InternalServerError, message: text },
        ),
        FailureKind::Command => Err(
            ErrorResponse { status: StatusCode::InternalServerError, message: text },
        ),
        FailureKind::DnsResolve { message } => Err(
            ErrorResponse { status: StatusCode::InternalServerError, message },
        ),
        FailureKind::Internal { message } => Err(
            ErrorResponse { status: StatusCode::InternalServerError, message },
        ),
        FailureKind::Io => Err(
            ErrorResponse { status: StatusCode::InternalServerError, message: text },
        ),
        FailureKind::ConnectionPoolCleared { message } => Err(
            ErrorResponse { status: StatusCode::InternalServerError, message },
        ),
        FailureKind::InvalidResponse { message } => Err(
            ErrorResponse { status: StatusCode::InternalServerError, message },
        ),
        FailureKind::ServerSelection { message } => Err(
            ErrorResponse { status: StatusCode::InternalServerError, message },
        ),
        FailureKind::SessionsNotSupported => Err(
            ErrorResponse { status: StatusCode::InternalServerError, message: text },
        ),
        FailureKind::InvalidTlsConfig { message } => Err(
            ErrorResponse { status: StatusCode::InternalServerError, message },
        ),
        FailureKind::Write => Err(
            ErrorResponse { status: StatusCode::InternalServerError, message: text },
        ),
        FailureKind::Transaction { message } => Err(
            ErrorResponse { status: StatusCode::InternalServerError, message },
        ),
        FailureKind::IncompatibleServer { message } => Err(
            ErrorResponse { status: StatusCode::InternalServerError, message },
        ),
        FailureKind::Unknown => Err(
            ErrorResponse { status: StatusCode::InternalServerError, message: text },
        ),
    }
}

/// The answer to a failed store operation, without the `Err` around it.
pub fn classify(e: StoreError) -> (response: ErrorResponse)
    ensures
        response.status == e.status(),
        response.message@ == e.message(),
{
    match mongo_errors(e) {
        Err(response) => response,
        Ok(_) => vstd::pervasive::unreached(),
    }
}

/// The classification table: 400 for an invalid argument and for nothing
/// else, 401 for a rejected authentication and for nothing else, 500 for every
/// other category.
pub proof fn status_follows_the_table(kind: FailureKind)
    ensures
        kind.status() == StatusCode::BadRequest <==> kind is InvalidArgument,
        kind.status() == StatusCode::Unauthorized <==> kind is Authentication,
        kind.status() == StatusCode::InternalServerError <==> !(kind is InvalidArgument) && !(kind
            is Authentication),
{
}

/// No store failure is ever answered with a success status: the code is 400,
/// 401 or 500.
pub proof fn failure_is_never_success(e: StoreError)
    ensures
        !e.status().success(),
        e.status().code() == 400 || e.status().code() == 401 || e.status().code() == 500,
        e.status().client_error() <==> e.kind is InvalidArgument || e.kind is Authentication,
{
}

/// The message is the store's own detail for every category that carries
/// one, and the failure's rendering for the others.
pub proof fn message_source(e: StoreError)
    ensures
        e.kind.detail() is Some ==> e.message() == e.kind.detail()->Some_0,
        e.kind.detail() is None ==> e.message() == e.text@,
        e.kind.status() != StatusCode::InternalServerError ==> e.kind.detail() is Some,
{
}

} // verus!
