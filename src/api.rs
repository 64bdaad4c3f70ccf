//! What the HTTP routes answer: the session header they read, and the
//! status and body that each outcome of the broker turns into.
use crate::broker;
use crate::catalog::{listed_in_order, Database, Table};
use crate::connection::{ConnectionData, DatabaseConnection, PoolSettings};
use crate::error::PgError;
use crate::shared::SharedSessions;
use crate::session_id::{parse_session_id, uuid_text, SessionId};
use vstd::prelude::*;
use vstd::string::StringExecFns;

verus! {

/// The request header that carries the session identifier.
pub const X_SESSION_HEADER: &'static str = "X-Session-Id";

/// `200 OK`.
pub const STATUS_OK: u16 = 200;

/// `400 Bad Request`: the client must mend the request or open a new session.
pub const STATUS_BAD_REQUEST: u16 = 400;

/// `500 Internal Server Error`.
pub const STATUS_INTERNAL_SERVER_ERROR: u16 = 500;

/// `504 Gateway Timeout`: the database was busy; the same request may be retried.
pub const STATUS_GATEWAY_TIMEOUT: u16 = 504;

/// The error text of a refused `connect`.
pub const CONNECTION_REFUSED: &'static str = "Connection refused";

/// The start of the error text for an identifier that names no session.
pub const NO_SESSION_PREFIX: &'static str = "No session could be found with session id: ";

/// The body of a refused connection in `ApiError`'s own response.
pub const REFUSED_BODY: &'static str = "json_err";

/// The errors that the routes themselves raise.
#[derive(Clone, Copy, Debug, PartialEq, Eq, Structural)]
pub enum ApiError {
    InternalError,
    BadClientData,
    Timeout,
    ConnectionRefused,
}

/// The body of a response, before it is written out as JSON or text.
#[derive(Clone, Debug, PartialEq, Eq)]
pub enum ResponseBody {
    /// No body.
    Empty,
    /// A plain text body.
    Text(String),
    /// `{"error": message}`.
    Error(String),
    /// `{"session_id": id}`, the answer to a new session.
    SessionCreated(SessionId),
    /// The identifier alone, as a JSON string.
    Session(SessionId),
    /// The list of databases, as a JSON array.
    Databases(Vec<Database>),
    /// The list of tables, as a JSON array.
    Tables(Vec<Table>),
}

/// A response of a route: its status code and its body.
#[derive(Clone, Debug, PartialEq, Eq)]
pub struct ApiResponse {
    pub status: u16,
    pub body: ResponseBody,
}

/// The status code that each `ApiError` answers with.
pub open spec fn api_error_status(e: ApiError) -> u16 {
    match e {
        ApiError::InternalError => STATUS_INTERNAL_SERVER_ERROR,
        ApiError::BadClientData => STATUS_BAD_REQUEST,
        ApiError::Timeout => STATUS_GATEWAY_TIMEOUT,
        ApiError::ConnectionRefused => STATUS_BAD_REQUEST,
    }
}

impl ApiError {
    /// The status code of this error's response.
    pub fn status_code(&self) -> (r: u16)
        ensures
            r == api_error_status(*self),
    {
        match self {
            ApiError::InternalError => STATUS_INTERNAL_SERVER_ERROR,
            ApiError::BadClientData => STATUS_BAD_REQUEST,
            ApiError::Timeout => STATUS_GATEWAY_TIMEOUT,
            ApiError::ConnectionRefused => STATUS_BAD_REQUEST,
        }
    }

    /// The response of this error: its status, with the text `json_err` for
    /// a refused connection and no body otherwise.
    pub fn error_response(&self) -> (r: ApiResponse)
        ensures
            r.status == api_error_status(*self),
            *self == ApiError::ConnectionRefused ==> (r.body matches ResponseBody::Text(t)
                && t@ == REFUSED_BODY@),
            *self != ApiError::ConnectionRefused ==> r.body == ResponseBody::Empty,
    {
        let status = self.status_code();
        match self {
            ApiError::ConnectionRefused => ApiResponse {
                status,
                body: ResponseBody::Text(String::from_str(REFUSED_BODY)),
            },
            _ => ApiResponse { status, body: ResponseBody::Empty },
        }
    }
}

/// The session identifier that a header value names, if any.
pub open spec fn header_session(value: Option<Seq<char>>) -> Option<SessionId> {
    match value {
        Some(v) => parse_session_id(v),
        None => None,
    }
}

/// The session identifier carried by the value of the session header;
/// nothing when the header is absent or is not an identifier.
pub fn get_session_id_from_header(value: Option<&str>) -> (r: Option<SessionId>)
    ensures
        r == header_session(
            match value {
                Some(v) => Some(v@),
                None => None,
            },
        ),
{
    match value {
        Some(v) => match SessionId::is_valid(v) {
            Ok(id) => Some(id),
            Err(_) => None,
        },
        None => None,
    }
}

/// The route filter that admits only requests whose session header names
/// an identifier.
pub struct XSessionHeader;

impl XSessionHeader {
    /// Whether a request with this value of the session header is admitted.
    pub fn check(&self, value: Option<&str>) -> (r: bool)
        ensures
            r == header_session(
                match value {
                    Some(v) => Some(v@),
                    None => None,
                },
            ) is Some,
    {
        get_session_id_from_header(value).is_some()
    }
}

/// A `400 Bad Request` whose body is `{"error": error_msg}`.
pub fn create_bad_request_response(error_msg: String) -> (r: ApiResponse)
    ensures
        r == (ApiResponse { status: STATUS_BAD_REQUEST, body: ResponseBody::Error(error_msg) }),
{
    ApiResponse { status: STATUS_BAD_REQUEST, body: ResponseBody::Error(error_msg) }
}

/// The error text for an identifier that names no session.
pub fn no_session_message(session_id: &SessionId) -> (r: String)
    ensures
        r@ == NO_SESSION_PREFIX@ + uuid_text(session_id.0),
{
    let mut text = String::from_str(NO_SESSION_PREFIX);
    let id = session_id.to_string();
    text.append(id.as_str());
    text
}

/// The status with which a route answers a failure of the broker.
pub open spec fn failure_status(e: PgError) -> u16 {
    match e {
        PgError::PoolTimeout(_) => STATUS_GATEWAY_TIMEOUT,
        PgError::CouldNotWriteDbSession => STATUS_INTERNAL_SERVER_ERROR,
        _ => STATUS_BAD_REQUEST,
    }
}

/// The error text with which a route answers a failure of the broker for
/// the session `id`; none for a failure that the client cannot act on.
pub open spec fn failure_text(e: PgError, id: SessionId) -> Option<Seq<char>> {
    match e {
        PgError::NoDbSession => Some(NO_SESSION_PREFIX@ + uuid_text(id.0)),
        PgError::PoolError(_) => Some(CONNECTION_REFUSED@),
        PgError::PoolTimeout(m) => Some(m@),
        PgError::PostgresError(m) => Some(m@),
        PgError::ConnectionLost(m) => Some(m@),
        PgError::CouldNotWriteDbSession => None,
    }
}

/// `r` has the given status, and the error body with the given text, or no
/// body where there is no text.
pub open spec fn answers(r: ApiResponse, status: u16, text: Option<Seq<char>>) -> bool {
    &&& r.status == status
    &&& match text {
        Some(t) => r.body matches ResponseBody::Error(m) && m@ == t,
        None => r.body == ResponseBody::Empty,
    }
}

/// The response to a failure of the broker for the session `session_id`.
/// An unknown session and a refused connection are the client's to mend
/// (400); a pool without a free connection is transient (504).
pub fn failure_response(e: PgError, session_id: &SessionId) -> (r: ApiResponse)
    ensures
        answers(r, failure_status(e), failure_text(e, *session_id)),
{
    match e {
        PgError::NoDbSession => create_bad_request_response(no_session_message(session_id)),
        PgError::PoolError(_) => create_bad_request_response(String::from_str(CONNECTION_REFUSED)),
        PgError::PoolTimeout(m) => ApiResponse {
            status: STATUS_GATEWAY_TIMEOUT,
            body: ResponseBody::Error(m),
        },
        PgError::PostgresError(m) => create_bad_request_response(m),
        PgError::ConnectionLost(m) => create_bad_request_response(m),
        PgError::CouldNotWriteDbSession => ApiResponse {
            status: STATUS_INTERNAL_SERVER_ERROR,
            body: ResponseBody::Empty,
        },
    }
}

/// The response of the `connect` route: the new identifier, `400` with
/// `Connection refused` when the pool could not be built, `500` otherwise.
pub fn connect_response(outcome: Result<SessionId, PgError>) -> (r: ApiResponse)
    ensures
        outcome matches Ok(id) ==> r == (ApiResponse {
            status: STATUS_OK,
            body: ResponseBody::SessionCreated(id),
        }),
        outcome matches Err(PgError::PoolError(_)) ==> answers(
            r,
            STATUS_BAD_REQUEST,
            Some(CONNECTION_REFUSED@),
        ),
        outcome matches Err(e) ==> !(e is PoolError) ==> answers(
            r,
            STATUS_INTERNAL_SERVER_ERROR,
            None,
        ),
{
    match outcome {
        Ok(id) => ApiResponse { status: STATUS_OK, body: ResponseBody::SessionCreated(id) },
        Err(PgError::PoolError(_)) => create_bad_request_response(
            String::from_str(CONNECTION_REFUSED),
        ),
        Err(_) => ApiResponse { status: STATUS_INTERNAL_SERVER_ERROR, body: ResponseBody::Empty },
    }
}

/// The response of the databases route for the session `session_id`.
pub fn databases_response(outcome: Result<Vec<Database>, PgError>, session_id: &SessionId) -> (r:
    ApiResponse)
    ensures
        outcome matches Ok(v) ==> r == (ApiResponse {
            status: STATUS_OK,
            body: ResponseBody::Databases(v),
        }),
        outcome matches Err(e) ==> answers(r, failure_status(e), failure_text(e, *session_id)),
{
    match outcome {
        Ok(v) => ApiResponse { status: STATUS_OK, body: ResponseBody::Databases(v) },
        Err(e) => failure_response(e, session_id),
    }
}

/// The response of the tables route for the session `session_id`.
pub fn tables_response(outcome: Result<Vec<Table>, PgError>, session_id: &SessionId) -> (r:
    ApiResponse)
    ensures
        outcome matches Ok(v) ==> r == (ApiResponse {
            status: STATUS_OK,
            body: ResponseBody::Tables(v),
        }),
        outcome matches Err(e) ==> answers(r, failure_status(e), failure_text(e, *session_id)),
{
    match outcome {
        Ok(v) => ApiResponse { status: STATUS_OK, body: ResponseBody::Tables(v) },
        Err(e) => failure_response(e, session_id),
    }
}

/// The response of the retry route, which checks that the session
/// `session_id` can still hand out a connection.
pub fn connection_retry_response(outcome: Result<SessionId, PgError>, session_id: &SessionId) -> (r:
    ApiResponse)
    ensures
        outcome matches Ok(id) ==> r == (ApiResponse {
            status: STATUS_OK,
            body: ResponseBody::Session(id),
        }),
        outcome matches Err(e) ==> answers(r, failure_status(e), failure_text(e, *session_id)),
{
    match outcome {
        Ok(id) => ApiResponse { status: STATUS_OK, body: ResponseBody::Session(id) },
        Err(e) => failure_response(e, session_id),
    }
}

/// The response of a route that needs a session when the session header is
/// absent or names no identifier.
pub fn missing_session_response() -> (r: ApiResponse)
    ensures
        r == (ApiResponse { status: STATUS_BAD_REQUEST, body: ResponseBody::Empty }),
{
    ApiError::BadClientData.error_response()
}

/// The value of a header as a text, where it is present.
pub open spec fn header_text(value: Option<&str>) -> Option<Seq<char>> {
    match value {
        Some(v) => Some(v@),
        None => None,
    }
}

/// A session route's answer when the session header names an identifier:
/// a listing only with `200`, an error text with `400` (no such session,
/// or the query failed) or `504` (no free connection in time).
pub open spec fn session_route_answer(r: ApiResponse) -> bool {
    &&& (r.status == STATUS_OK || r.status == STATUS_BAD_REQUEST || r.status
        == STATUS_GATEWAY_TIMEOUT)
    &&& r.status != STATUS_OK ==> r.body is Error
}

/// The `/connect` route: opens a session on the server that
/// `connection_data` names and answers with its identifier; `400` with
/// `Connection refused` when the pool cannot be built, settings that no
/// pool can have included.
pub fn connect<D: DatabaseConnection>(
    connection_data: &ConnectionData,
    settings: &PoolSettings,
    db_sessions: &SharedSessions<D::Pool>,
) -> (r: ApiResponse)
    ensures
        !settings.usable() ==> answers(r, STATUS_BAD_REQUEST, Some(CONNECTION_REFUSED@)),
        r.status == STATUS_OK ==> r.body is SessionCreated,
        r.status == STATUS_OK || answers(r, STATUS_BAD_REQUEST, Some(CONNECTION_REFUSED@))
            || answers(r, STATUS_INTERNAL_SERVER_ERROR, None),
{
    connect_response(broker::connect::<D>(connection_data, settings, db_sessions))
}

/// The `/databases` route for a request whose session header has the value
/// `header`: `400` without a body when the header names no identifier,
/// and the registry is not consulted; otherwise the session's databases by
/// name, or the failure's answer.
pub fn get_databases<D: DatabaseConnection>(
    header: Option<&str>,
    db_sessions: &SharedSessions<D::Pool>,
) -> (r: ApiResponse)
    ensures
        header_session(header_text(header)) is None ==> r == (ApiResponse {
            status: STATUS_BAD_REQUEST,
            body: ResponseBody::Empty,
        }),
        header_session(header_text(header)) is Some ==> session_route_answer(r),
        r.body matches ResponseBody::Databases(v) ==> listed_in_order(v@),
{
    match get_session_id_from_header(header) {
        Some(id) => databases_response(broker::list_databases::<D>(db_sessions, &id), &id),
        None => missing_session_response(),
    }
}

/// The `/databases/{database_name}/tables` route for a request whose
/// session header has the value `header`: `400` without a body when the
/// header names no identifier; otherwise the session's tables by schema and
/// name, or the failure's answer.
pub fn get_tables<D: DatabaseConnection>(
    header: Option<&str>,
    db_sessions: &SharedSessions<D::Pool>,
) -> (r: ApiResponse)
    ensures
        header_session(header_text(header)) is None ==> r == (ApiResponse {
            status: STATUS_BAD_REQUEST,
            body: ResponseBody::Empty,
        }),
        header_session(header_text(header)) is Some ==> session_route_answer(r),
        r.body matches ResponseBody::Tables(v) ==> listed_in_order(v@),
{
    match get_session_id_from_header(header) {
        Some(id) => tables_response(broker::list_tables::<D>(db_sessions, &id), &id),
        None => missing_session_response(),
    }
}

/// The retry route for a request whose session header has the value
/// `header`: `400` without a body when the header names no identifier;
/// otherwise the identifier again when the session can still hand out a
/// connection, or the failure's answer.
pub fn connection_retry<D: DatabaseConnection>(
    header: Option<&str>,
    db_sessions: &SharedSessions<D::Pool>,
) -> (r: ApiResponse)
    ensures
        header_session(header_text(header)) is None ==> r == (ApiResponse {
            status: STATUS_BAD_REQUEST,
            body: ResponseBody::Empty,
        }),
        header_session(header_text(header)) matches Some(id) ==> (session_route_answer(r) && (
        r.status == STATUS_OK ==> r.body == ResponseBody::Session(id))),
{
    match get_session_id_from_header(header) {
        Some(id) => connection_retry_response(
            broker::check_session::<D>(db_sessions, &id),
            &id,
        ),
        None => missing_session_response(),
    }
}

} // verus!
