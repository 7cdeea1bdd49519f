use vstd::prelude::*;
use vstd::string::*;

use crate::format::{json_string_of, json_quote, Body, Response};
use crate::format::{STATUS_BAD_REQUEST, STATUS_INTERNAL_SERVER_ERROR, STATUS_NOT_FOUND,
    STATUS_UNAUTHORIZED};

verus! {

/// Validation details attached to a model-level failure.
#[derive(Debug)]
pub struct ModelValidation {
    pub code: String,
    pub message: Option<String>,
}

/// Failures raised by the model layer, kept as a closed set of variants.
#[derive(Debug)]
pub enum ModelError {
    EntityAlreadyExists,
    EntityNotFound,
    ModelValidation { errors: ModelValidation },
    DbErr(String),
    Any(String),
}

/// Structure representing the externally visible details about an error:
/// an error code and an optional human description.
#[derive(Debug)]
pub struct ErrorDetail {
    pub error: Option<String>,
    pub description: Option<String>,
}

impl ErrorDetail {
    /// Create a new `ErrorDetail` with the specified error and description.
    pub fn new(error: &str, description: &str) -> (d: ErrorDetail)
        ensures
            d.error matches Some(e) && e@ == error@,
            d.description matches Some(s) && s@ == description@,
    {
        ErrorDetail { error: Some(error.to_owned()), description: Some(description.to_owned()) }
    }

    /// Create an `ErrorDetail` with only an error reason and no description.
    pub fn with_reason(error: &str) -> (d: ErrorDetail)
        ensures
            d.error matches Some(e) && e@ == error@,
            d.description is None,
    {
        ErrorDetail { error: Some(error.to_owned()), description: None }
    }
}

/// The application's closed error taxonomy.
///
/// Domain variants (`Unauthorized`, `NotFound`, `BadRequest`, `CustomError`,
/// `InternalServerError`) are raised deliberately by handlers and map to a
/// specific status. Boundary variants hold only the collaborator's rendered
/// message and are always downgraded to a generic response. `WithBacktrace`
/// is the diagnostic wrapper: it adds a captured trace without changing how
/// the error is classified.
#[derive(Debug)]
pub enum Error {
    WithBacktrace { inner: Box<Error>, backtrace: String },
    Message(String),
    QueueProviderMissing,
    TaskNotFound(String),
    Axum(String),
    JSON(String),
    JsonRejection(String),
    EnvVar(String),
    IO(String),
    DB(String),
    Hash(String),
    Unauthorized(String),
    NotFound,
    BadRequest(String),
    CustomError(u16, ErrorDetail),
    InternalServerError,
    InvalidHeaderValue(String),
    InvalidHeaderName(String),
    InvalidMethod(String),
    TaskJoinError(String),
    Model(ModelError),
    Sqlx(String),
    Cache(String),
    Any(String),
}

/// How many diagnostic layers sit around the payload of `e`.
pub open spec fn wrap_depth(e: Error) -> nat
    decreases e,
{
    match e {
        Error::WithBacktrace { inner, .. } => 1 + wrap_depth(*inner),
        _ => 0,
    }
}

/// The error underneath all diagnostic wrapping; classification goes by it.
pub open spec fn unwrapped(e: Error) -> Error
    decreases e,
{
    match e {
        Error::WithBacktrace { inner, .. } => unwrapped(*inner),
        _ => e,
    }
}

/// What one call of [`Error::bt`] may return: either the error unchanged
/// (capture disabled or unsupported) or the same error under exactly one
/// new diagnostic layer.
pub open spec fn bt_step(e: Error, r: Error) -> bool {
    ||| r == e
    ||| (r matches Error::WithBacktrace { inner, .. } && *inner == e)
}

/// Relies on `std::backtrace::Backtrace`: `capture()` obeys the process
/// environment, and `status()` reports `Disabled` or `Unsupported` exactly
/// when no trace was collected. Returns the rendered trace, or `None` when
/// capture is off; the outcome depends on the environment, so nothing more
/// is assumed of it.
#[verifier::external_body]
fn capture_backtrace() -> (r: Option<String>) {
    let trace = std::backtrace::Backtrace::capture();
    match trace.status() {
        std::backtrace::BacktraceStatus::Disabled => None,
        std::backtrace::BacktraceStatus::Unsupported => None,
        _ => Some(format!("{trace}")),
    }
}

impl Error {
    /// Wrap an unclassified collaborator failure, given by its rendered
    /// message, as a generic boundary error.
    pub fn wrap(err: String) -> (r: Error)
        ensures
            r == Error::Any(err),
    {
        Error::Any(err)
    }

    /// Build a plain message error from a collaborator failure's rendering.
    pub fn msg(err: &str) -> (r: Error)
        ensures
            r matches Error::Message(m) && m@ == err@,
    {
        Error::Message(err.to_owned())
    }

    /// Build a plain message error from a string.
    pub fn string(s: &str) -> (r: Error)
        ensures
            r matches Error::Message(m) && m@ == s@,
    {
        Error::Message(s.to_owned())
    }

    /// Attach a capture result to this error: a collected trace puts the
    /// error under exactly one new diagnostic layer carrying that trace; no
    /// trace returns the error unchanged. This is the whole per-value
    /// behavior of diagnostic capture; [`Error::bt`] only supplies the
    /// environment-dependent argument.
    pub fn attach_trace(self, trace: Option<String>) -> (r: Error)
        ensures
            trace matches Some(t) ==> (r matches Error::WithBacktrace { inner, backtrace }
                && *inner == self && backtrace == t),
            trace is None ==> r == self,
    {
        match trace {
            None => self,
            Some(backtrace) => Error::WithBacktrace { inner: Box::new(self), backtrace },
        }
    }

    /// Diagnostic capture: wrap this error together with an execution trace,
    /// but only if the hosting environment has capture enabled; otherwise
    /// return the error unchanged. Which of the two happens depends on the
    /// environment alone, so this function promises only [`bt_step`]; the
    /// per-value behavior — exactly one layer for a collected trace, the
    /// error unchanged for none — is the verified contract of
    /// [`Error::attach_trace`], which this call goes through.
    pub fn bt(self) -> (r: Error)
        ensures
            bt_step(self, r),
    {
        let trace = capture_backtrace();
        self.attach_trace(trace)
    }
}

/// The collaborators whose failures cross into the application: each one
/// has exactly one dedicated boundary variant in [`Error`].
pub enum BoundaryKind {
    Axum,
    Json,
    JsonRejection,
    EnvVar,
    Io,
    Db,
    InvalidHeaderValue,
    InvalidHeaderName,
    InvalidMethod,
    TaskJoin,
    Sqlx,
    Cache,
    Other,
}

/// The one-to-one mapping table from a collaborator failure, given by its
/// origin and rendered message, to the dedicated boundary variant.
pub open spec fn boundary_error(kind: BoundaryKind, message: String) -> Error {
    match kind {
        BoundaryKind::Axum => Error::Axum(message),
        BoundaryKind::Json => Error::JSON(message),
        BoundaryKind::JsonRejection => Error::JsonRejection(message),
        BoundaryKind::EnvVar => Error::EnvVar(message),
        BoundaryKind::Io => Error::IO(message),
        BoundaryKind::Db => Error::DB(message),
        BoundaryKind::InvalidHeaderValue => Error::InvalidHeaderValue(message),
        BoundaryKind::InvalidHeaderName => Error::InvalidHeaderName(message),
        BoundaryKind::InvalidMethod => Error::InvalidMethod(message),
        BoundaryKind::TaskJoin => Error::TaskJoinError(message),
        BoundaryKind::Sqlx => Error::Sqlx(message),
        BoundaryKind::Cache => Error::Cache(message),
        BoundaryKind::Other => Error::Any(message),
    }
}

/// Convert a collaborator failure into its dedicated boundary variant,
/// capturing a diagnostic trace once at this point of origin. The result
/// carries at most one diagnostic layer.
pub fn from_boundary(kind: BoundaryKind, message: String) -> (r: Error)
    ensures
        unwrapped(r) == boundary_error(kind, message),
        wrap_depth(r) <= 1,
{
    let e = match kind {
        BoundaryKind::Axum => Error::Axum(message),
        BoundaryKind::Json => Error::JSON(message),
        BoundaryKind::JsonRejection => Error::JsonRejection(message),
        BoundaryKind::EnvVar => Error::EnvVar(message),
        BoundaryKind::Io => Error::IO(message),
        BoundaryKind::Db => Error::DB(message),
        BoundaryKind::InvalidHeaderValue => Error::InvalidHeaderValue(message),
        BoundaryKind::InvalidHeaderName => Error::InvalidHeaderName(message),
        BoundaryKind::InvalidMethod => Error::InvalidMethod(message),
        BoundaryKind::TaskJoin => Error::TaskJoinError(message),
        BoundaryKind::Sqlx => Error::Sqlx(message),
        BoundaryKind::Cache => Error::Cache(message),
        BoundaryKind::Other => Error::Any(message),
    };
    proof {
        assert(e == boundary_error(kind, message));
        assert(!(e is WithBacktrace));
        assert(wrap_depth(e) == 0);
        assert(unwrapped(e) == e);
    }
    let r = e.bt();
    proof {
        if r != e {
            assert(r matches Error::WithBacktrace { inner, .. } && *inner == e);
            assert(unwrapped(r) == unwrapped(e));
            assert(wrap_depth(r) == 1 + wrap_depth(e));
        }
    }
    r
}

/// Law: diagnostic wrapping is idempotent-once. A single [`Error::bt`] call
/// adds at most one layer and never changes the underlying classification;
/// deeper nesting can only come from calling the wrap explicitly again.
pub proof fn lemma_bt_wraps_at_most_once(e: Error, r: Error)
    requires
        bt_step(e, r),
    ensures
        wrap_depth(r) <= wrap_depth(e) + 1,
        unwrapped(r) == unwrapped(e),
{
}

/// The internal text of a model failure, for the log record.
pub open spec fn model_message_view(e: ModelError) -> Seq<char> {
    match e {
        ModelError::EntityAlreadyExists => "Entity already exists"@,
        ModelError::EntityNotFound => "Entity not found"@,
        ModelError::ModelValidation { errors } => match errors.message {
            Some(m) => "model validation failed: "@ + errors.code@ + " ("@ + m@ + ")"@,
            None => "model validation failed: "@ + errors.code@,
        },
        ModelError::DbErr(s) => s@,
        ModelError::Any(s) => s@,
    }
}

impl ModelError {
    /// The internal text of this failure, for the log record.
    pub fn message(&self) -> (m: String)
        ensures
            m@ == model_message_view(*self),
    {
        match self {
            ModelError::EntityAlreadyExists => String::from_str("Entity already exists"),
            ModelError::EntityNotFound => String::from_str("Entity not found"),
            ModelError::ModelValidation { errors } => {
                let mut m = String::from_str("model validation failed: ");
                m.append(errors.code.as_str());
                match &errors.message {
                    Some(text) => {
                        m.append(" (");
                        m.append(text.as_str());
                        m.append(")");
                        proof {
                            assert(m@ =~= model_message_view(*self));
                        }
                        m
                    },
                    None => m,
                }
            },
            ModelError::DbErr(s) => s.clone(),
            ModelError::Any(s) => s.clone(),
        }
    }
}

/// The full internal text of an error, for the one log record written when
/// it becomes a response: boundary variants carry their collaborator's
/// rendered message; a diagnostic wrapper appends its captured trace.
pub open spec fn message_view(e: Error) -> Seq<char>
    decreases e,
{
    match e {
        Error::WithBacktrace { inner, backtrace } => message_view(*inner) + "\n"@ + backtrace@,
        Error::Message(s) => s@,
        Error::QueueProviderMissing => "error while running worker: no queue provider populated in context. Did you configure BackgroundQueue and connection details in `queue` in your config file?"@,
        Error::TaskNotFound(s) => "task not found: '"@ + s@ + "'"@,
        Error::Axum(s) => s@,
        Error::JSON(s) => s@,
        Error::JsonRejection(s) => s@,
        Error::EnvVar(s) => s@,
        Error::IO(s) => s@,
        Error::DB(s) => s@,
        Error::Hash(s) => s@,
        Error::Unauthorized(s) => s@,
        Error::NotFound => "not found"@,
        Error::BadRequest(s) => s@,
        Error::CustomError(_, _) => Seq::empty(),
        Error::InternalServerError => "internal server error"@,
        Error::InvalidHeaderValue(s) => s@,
        Error::InvalidHeaderName(s) => s@,
        Error::InvalidMethod(s) => s@,
        Error::TaskJoinError(s) => s@,
        Error::Model(m) => model_message_view(m),
        Error::Sqlx(s) => s@,
        Error::Cache(s) => s@,
        Error::Any(s) => s@,
    }
}

/// The view of an optional owned text.
pub open spec fn opt_text_view(o: Option<String>) -> Option<Seq<char>> {
    match o {
        Some(s) => Some(s@),
        None => None,
    }
}

/// The serialized JSON body carrying an error code and an optional
/// description; absent fields are omitted, as the wire format demands.
pub open spec fn body_json_of(code: Option<Seq<char>>, desc: Option<Seq<char>>) -> Seq<char> {
    match (code, desc) {
        (Some(c), Some(s)) => "{\"error\":"@ + json_string_of(c) + ",\"description\":"@
            + json_string_of(s) + "}"@,
        (Some(c), None) => "{\"error\":"@ + json_string_of(c) + "}"@,
        (None, Some(s)) => "{\"description\":"@ + json_string_of(s) + "}"@,
        (None, None) => "{}"@,
    }
}

/// The status code the mapper downgrades `e` to, after unwrapping any
/// diagnostic layer: the fixed response table of the taxonomy.
pub open spec fn public_status(e: Error) -> u16 {
    match unwrapped(e) {
        Error::NotFound => STATUS_NOT_FOUND,
        Error::InternalServerError => STATUS_INTERNAL_SERVER_ERROR,
        Error::Unauthorized(_) => STATUS_UNAUTHORIZED,
        Error::CustomError(status, _) => status,
        _ => STATUS_BAD_REQUEST,
    }
}

/// The public error code for `e`. Only an explicitly classified custom
/// error may surface caller-supplied text; every other variant maps to a
/// fixed literal, so no internal message can reach the client.
pub open spec fn public_error_code(e: Error) -> Option<Seq<char>> {
    match unwrapped(e) {
        Error::NotFound => Some("not_found"@),
        Error::InternalServerError => Some("internal_server_error"@),
        Error::Unauthorized(_) => Some("unauthorized"@),
        Error::CustomError(_, detail) => opt_text_view(detail.error),
        _ => Some("Bad Request"@),
    }
}

/// The public description for `e`; fixed literals except for custom errors.
pub open spec fn public_description(e: Error) -> Option<Seq<char>> {
    match unwrapped(e) {
        Error::NotFound => Some("Resource was not found"@),
        Error::InternalServerError => Some("Internal Server Error"@),
        Error::Unauthorized(_) => Some("You do not have permission to access this resource"@),
        Error::CustomError(_, detail) => opt_text_view(detail.description),
        _ => None,
    }
}

/// The exact serialized body of the response the mapper produces for `e`.
pub open spec fn response_body_json(e: Error) -> Seq<char> {
    body_json_of(public_error_code(e), public_description(e))
}

impl Error {
    /// The full internal text of this error, for the log record written
    /// once when it becomes a response.
    pub fn message(&self) -> (m: String)
        ensures
            m@ == message_view(*self),
        decreases *self,
    {
        match self {
            Error::WithBacktrace { inner, backtrace } => {
                let mut m = (&**inner).message();
                m.append("\n");
                m.append(backtrace.as_str());
                proof {
                    assert(m@ =~= message_view(*self));
                }
                m
            },
            Error::Message(s) => s.clone(),
            Error::QueueProviderMissing => String::from_str(
                "error while running worker: no queue provider populated in context. Did you configure BackgroundQueue and connection details in `queue` in your config file?",
            ),
            Error::TaskNotFound(s) => {
                let mut m = String::from_str("task not found: '");
                m.append(s.as_str());
                m.append("'");
                proof {
                    assert(m@ =~= message_view(*self));
                }
                m
            },
            Error::Axum(s) => s.clone(),
            Error::JSON(s) => s.clone(),
            Error::JsonRejection(s) => s.clone(),
            Error::EnvVar(s) => s.clone(),
            Error::IO(s) => s.clone(),
            Error::DB(s) => s.clone(),
            Error::Hash(s) => s.clone(),
            Error::Unauthorized(s) => s.clone(),
            Error::NotFound => String::from_str("not found"),
            Error::BadRequest(s) => s.clone(),
            Error::CustomError(_, _) => String::new(),
            Error::InternalServerError => String::from_str("internal server error"),
            Error::InvalidHeaderValue(s) => s.clone(),
            Error::InvalidHeaderName(s) => s.clone(),
            Error::InvalidMethod(s) => s.clone(),
            Error::TaskJoinError(s) => s.clone(),
            Error::Model(m) => m.message(),
            Error::Sqlx(s) => s.clone(),
            Error::Cache(s) => s.clone(),
            Error::Any(s) => s.clone(),
        }
    }

    /// Peel every diagnostic layer off; classification goes by the result.
    fn strip_diagnostic(self) -> (r: Error)
        ensures
            r == unwrapped(self),
            !(r is WithBacktrace),
        decreases self,
    {
        match self {
            Error::WithBacktrace { inner, backtrace: _ } => (*inner).strip_diagnostic(),
            e => e,
        }
    }

    /// Convert an `Error` into an HTTP response: the deterministic
    /// downgrade stage of the pipeline. Domain errors keep their specific
    /// status and fixed public detail; a custom error passes its status
    /// and detail through verbatim; every boundary or uncategorized
    /// variant becomes a generic bad request, so internal failure detail
    /// never reaches the client. The caller is expected to log the full
    /// internal error once, before this conversion discards it.
    pub fn into_response(self) -> (r: Response)
        ensures
            r.status == public_status(self),
            r.body matches Body::Json(b) && b@ == response_body_json(self),
    {
        let stripped = self.strip_diagnostic();
        match stripped {
            Error::NotFound => Response {
                status: STATUS_NOT_FOUND,
                body: Body::Json(
                    render_detail(&ErrorDetail::new("not_found", "Resource was not found")),
                ),
            },
            Error::InternalServerError => Response {
                status: STATUS_INTERNAL_SERVER_ERROR,
                body: Body::Json(
                    render_detail(
                        &ErrorDetail::new("internal_server_error", "Internal Server Error"),
                    ),
                ),
            },
            Error::Unauthorized(_) => Response {
                status: STATUS_UNAUTHORIZED,
                body: Body::Json(
                    render_detail(
                        &ErrorDetail::new(
                            "unauthorized",
                            "You do not have permission to access this resource",
                        ),
                    ),
                ),
            },
            Error::CustomError(status, detail) => Response {
                status,
                body: Body::Json(render_detail(&detail)),
            },
            _ => Response {
                status: STATUS_BAD_REQUEST,
                body: Body::Json(render_detail(&ErrorDetail::with_reason("Bad Request"))),
            },
        }
    }
}

/// Serialize an error detail, omitting absent fields.
fn render_detail(d: &ErrorDetail) -> (b: String)
    ensures
        b@ == body_json_of(opt_text_view(d.error), opt_text_view(d.description)),
{
    match (&d.error, &d.description) {
        (Some(code), Some(desc)) => {
            let mut b = String::from_str("{\"error\":");
            b.append(json_quote(code.as_str()).as_str());
            b.append(",\"description\":");
            b.append(json_quote(desc.as_str()).as_str());
            b.append("}");
            proof {
                assert(b@ =~= body_json_of(opt_text_view(d.error), opt_text_view(d.description)));
            }
            b
        },
        (Some(code), None) => {
            let mut b = String::from_str("{\"error\":");
            b.append(json_quote(code.as_str()).as_str());
            b.append("}");
            proof {
                assert(b@ =~= body_json_of(opt_text_view(d.error), opt_text_view(d.description)));
            }
            b
        },
        (None, Some(desc)) => {
            let mut b = String::from_str("{\"description\":");
            b.append(json_quote(desc.as_str()).as_str());
            b.append("}");
            proof {
                assert(b@ =~= body_json_of(opt_text_view(d.error), opt_text_view(d.description)));
            }
            b
        },
        (None, None) => String::from_str("{}"),
    }
}

/// Boundary-class variants: failures that originated in a collaborator and
/// must never surface their internal message.
pub open spec fn is_boundary(e: Error) -> bool {
    exists|kind: BoundaryKind, message: String| e == boundary_error(kind, message)
}

/// Law: the boundary downgrade leaks nothing. Any boundary failure, under
/// any diagnostic wrapping and whatever its internal message, maps to the
/// one fixed generic payload, so the response body is independent of the
/// collaborator's message.
pub proof fn lemma_boundary_response_is_fixed(e: Error)
    requires
        is_boundary(unwrapped(e)),
    ensures
        public_status(e) == STATUS_BAD_REQUEST,
        response_body_json(e) == body_json_of(Some("Bad Request"@), None),
{
    let (kind, message): (BoundaryKind, String) = choose|kind: BoundaryKind, message: String|
        unwrapped(e) == boundary_error(kind, message);
}

/// Law: the unauthorized response never echoes the caller-supplied
/// message; status and body are the same fixed payload for every message.
pub proof fn lemma_unauthorized_response_is_fixed(m1: String, m2: String)
    ensures
        public_status(Error::Unauthorized(m1)) == STATUS_UNAUTHORIZED,
        response_body_json(Error::Unauthorized(m1)) == response_body_json(Error::Unauthorized(m2)),
{
}

/// Create an unauthorized error with a specified message, as a failed
/// result for ergonomic early returns.
pub fn unauthorized<U>(msg: &str) -> (r: crate::Result<U>)
    ensures
        r matches Err(e) && e matches Error::Unauthorized(m) && m@ == msg@,
{
    Err(Error::Unauthorized(msg.to_owned()))
}

/// Return a bad request error with a message.
pub fn bad_request<U>(msg: &str) -> (r: crate::Result<U>)
    ensures
        r matches Err(e) && e matches Error::BadRequest(m) && m@ == msg@,
{
    Err(Error::BadRequest(msg.to_owned()))
}

/// Return a not-found error.
pub fn not_found<U>() -> (r: crate::Result<U>)
    ensures
        r matches Err(e) && e is NotFound,
{
    Err(Error::NotFound)
}

} // verus!
