use isahc::error::ErrorKind;
use vstd::prelude::*;

verus! {

/// The kind of a transport failure, one for each kind isahc reports.
#[derive(Clone, Copy, Debug, PartialEq, Eq, Structural)]
pub enum TransportErrorKind {
    BadClientCertificate,
    BadServerCertificate,
    ClientInitialization,
    /// The connection to the server could not be established.
    ConnectionFailed,
    InvalidContentEncoding,
    InvalidCredentials,
    InvalidRequest,
    Io,
    /// The server's host name could not be resolved.
    NameResolution,
    ProtocolViolation,
    RequestBodyNotRewindable,
    Timeout,
    TlsEngine,
    TooManyRedirects,
    /// A kind that isahc does not recognise, or one added after these.
    Unknown,
}

/// The kind of a transport failure, as isahc reports it.
pub uninterp spec fn transport_kind_of(error: isahc::Error) -> TransportErrorKind;

/// Whether a transport failure of this kind means that the server could not be
/// reached at all: the connection failed, or its name did not resolve.
pub open spec fn is_unreachable(kind: TransportErrorKind) -> bool {
    kind == TransportErrorKind::ConnectionFailed || kind == TransportErrorKind::NameResolution
}

/// Relies on isahc::Error::kind: the kind stored in the error, one arm per kind.
#[verifier::external_body]
fn transport_error_kind(error: &isahc::Error) -> (r: TransportErrorKind)
    ensures
        r == transport_kind_of(*error),
{
    match error.kind() {
        ErrorKind::BadClientCertificate => TransportErrorKind::BadClientCertificate, ErrorKind::BadServerCertificate => TransportErrorKind::BadServerCertificate,
        ErrorKind::ClientInitialization => TransportErrorKind::ClientInitialization, ErrorKind::ConnectionFailed => TransportErrorKind::ConnectionFailed,
        ErrorKind::InvalidContentEncoding => TransportErrorKind::InvalidContentEncoding, ErrorKind::InvalidCredentials => TransportErrorKind::InvalidCredentials,
        ErrorKind::InvalidRequest => TransportErrorKind::InvalidRequest, ErrorKind::Io => TransportErrorKind::Io,
        ErrorKind::NameResolution => TransportErrorKind::NameResolution, ErrorKind::ProtocolViolation => TransportErrorKind::ProtocolViolation,
        ErrorKind::RequestBodyNotRewindable => TransportErrorKind::RequestBodyNotRewindable, ErrorKind::Timeout => TransportErrorKind::Timeout,
        ErrorKind::TlsEngine => TransportErrorKind::TlsEngine, ErrorKind::TooManyRedirects => TransportErrorKind::TooManyRedirects,
        _ => TransportErrorKind::Unknown,
    }
}

/// A structured error reported by the server in its own JSON format.
#[derive(Clone, Debug)]
pub struct MeilisearchError {
    /// Human-readable description of the failure (`message`).
    pub error_message: String,
    /// Machine-readable error code (`code`).
    pub error_code: String,
    /// Broad category of the failure (`type`).
    pub error_type: String,
    /// Link to the documentation of the error (`link`).
    pub error_link: String,
}

impl MeilisearchError {
    /// The four fields, as text: message, code, type and link.
    pub open spec fn fields(&self) -> (Seq<char>, Seq<char>, Seq<char>, Seq<char>) {
        (self.error_message@, self.error_code@, self.error_type@, self.error_link@)
    }
}

/// A failing status code whose body is not a structured server error.
#[derive(Clone, Debug)]
pub struct MeilisearchCommunicationError {
    pub status_code: u16,
    pub message: Option<String>,
    pub url: String,
}

/// Every way a request/response exchange can fail.
#[derive(Debug)]
pub enum ClientError {
    /// The server answered with a failing status and a body that is not a structured error.
    MeilisearchCommunication(MeilisearchCommunicationError),
    /// The server reported a structured application error.
    Meilisearch(MeilisearchError),
    /// The server could not be reached at all.
    UnreachableServer,
    /// A body did not have the expected shape.
    ParseError(serde_json::Error),
    /// The request could not be assembled (bad URI or header).
    InvalidRequest,
    /// Any other transport failure.
    Http(isahc::Error),
}

/// Maps a transport failure into the error taxonomy: a server that could not be
/// reached (failed connection, unresolved name) is `UnreachableServer`; anything else
/// is kept as an HTTP error.
pub fn classify_transport_error(kind: TransportErrorKind, error: isahc::Error) -> (r: ClientError)
    ensures
        is_unreachable(kind) <==> r is UnreachableServer,
        !is_unreachable(kind) ==> r == ClientError::Http(error),
{
    match kind {
        TransportErrorKind::ConnectionFailed | TransportErrorKind::NameResolution => {
            ClientError::UnreachableServer
        },
        _ => ClientError::Http(error),
    }
}

/// A transport failure of the isahc backend.
pub struct IsachError(pub isahc::Error);

impl IsachError {
    /// Classifies the failure by its kind (see `classify_transport_error`).
    pub fn into_error(self) -> (r: ClientError)
        ensures
            is_unreachable(transport_kind_of(self.0)) <==> r is UnreachableServer,
            !is_unreachable(transport_kind_of(self.0)) ==> r == ClientError::Http(self.0),
    {
        let kind = transport_error_kind(&self.0);
        classify_transport_error(kind, self.0)
    }
}

/// Turns a request that could not be assembled into `InvalidRequest`, keeping a
/// well-formed one as it is.
pub fn check_prepared<R>(prepared: Result<R, http::Error>) -> (r: Result<R, ClientError>)
    ensures
        prepared is Ok <==> r is Ok,
        prepared is Ok ==> r->Ok_0 == prepared->Ok_0,
        prepared is Err ==> r->Err_0 is InvalidRequest,
{
    match prepared {
        Ok(request) => Ok(request),
        Err(_) => Err(ClientError::InvalidRequest),
    }
}

} // verus!
