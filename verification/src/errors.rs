//! The closed error taxonomy of the service and the single recovery
//! mapping that turns any rejected request into exactly one response.

use vstd::prelude::*;

use crate::decimal::ParseFault;

verus! {

/// HTTP status reused for every business error of the closed set.
pub const STATUS_RANGE_NOT_SATISFIABLE: u16 = 416;

/// HTTP status for a request the cross-origin middleware refused.
pub const STATUS_FORBIDDEN: u16 = 403;

/// HTTP status for a request body that could not be deserialized.
pub const STATUS_UNPROCESSABLE_ENTITY: u16 = 422;

/// HTTP status for anything no route or error check recognized.
pub const STATUS_NOT_FOUND: u16 = 404;

/// Every failure the service reports: a closed set, each variant
/// carrying enough context for a deterministic status and message.
#[derive(Debug)]
pub enum Error {
    /// A query-parameter value could not be read as an unsigned
    /// integer; carries the exact parse fault.
    ParseError(ParseFault),
    /// A required query parameter was absent.
    MissingParameters,
    /// No question exists under the requested identifier.
    QuestionNotFound,
    /// The persistent backend failed to run a query.
    DatabaseQueryError,
    /// The moderation call failed at the transport level or returned
    /// an unreadable response; carries the rendered cause.
    ExternalAPIError { message: String },
    /// The moderation endpoint rejected the request (status in the
    /// 400s); carries its status and message.
    ClientError { status: u16, message: String },
    /// The moderation endpoint itself failed (status 500 or above);
    /// carries its status and message.
    ServerError { status: u16, message: String },
}

impl Error {
    /// The client-facing description of the failure.
    pub open spec fn message_spec(self) -> Seq<char> {
        match self {
            Error::ParseError(ParseFault::Empty) => "Cannot parse parameter: cannot parse integer from empty string"@,
            Error::ParseError(ParseFault::InvalidDigit) => "Cannot parse parameter: invalid digit found in string"@,
            Error::ParseError(ParseFault::Overflow) => "Cannot parse parameter: number too large to fit in target type"@,
            Error::MissingParameters => "Missing parameter"@,
            Error::QuestionNotFound => "Question not Found"@,
            Error::DatabaseQueryError => "Cannot update, invalid data"@,
            Error::ExternalAPIError { message } => message@,
            Error::ClientError { status, message } => message@,
            Error::ServerError { status, message } => message@,
        }
    }

    /// Renders the client-facing description of the failure.
    pub fn message(&self) -> (r: String)
        ensures
            r@ == self.message_spec(),
    {
        match self {
            Error::ParseError(fault) => match fault {
                ParseFault::Empty => "Cannot parse parameter: cannot parse integer from empty string".to_owned(),
                ParseFault::InvalidDigit => "Cannot parse parameter: invalid digit found in string".to_owned(),
                ParseFault::Overflow => "Cannot parse parameter: number too large to fit in target type".to_owned(),
            },
            Error::MissingParameters => "Missing parameter".to_owned(),
            Error::QuestionNotFound => "Question not Found".to_owned(),
            Error::DatabaseQueryError => "Cannot update, invalid data".to_owned(),
            Error::ExternalAPIError { message } => message.clone(),
            Error::ClientError { status: _, message } => message.clone(),
            Error::ServerError { status: _, message } => message.clone(),
        }
    }
}

/// A rejected request as the recovery stage receives it, already
/// sorted into the kinds the original middleware distinguishes.
#[derive(Debug)]
pub enum Rejection {
    /// A failure from the service's own closed error set.
    Application(Error),
    /// The cross-origin middleware refused the request; carries the
    /// middleware's rendered message.
    CorsForbidden { message: String },
    /// The request body could not be deserialized by the framework;
    /// carries the framework's rendered message.
    BodyDeserialize { message: String },
    /// Nothing recognized the request.
    Other,
}

/// The response the recovery stage emits.
#[derive(Debug)]
pub struct Response {
    pub status: u16,
    pub body: String,
}

/// Status and body owed for each kind of rejection: business errors
/// share one status, cross-origin refusals and body failures keep
/// their own, and everything else falls through to not-found.
pub open spec fn recovery_spec(r: Rejection) -> (u16, Seq<char>) {
    match r {
        Rejection::Application(e) => (STATUS_RANGE_NOT_SATISFIABLE, e.message_spec()),
        Rejection::CorsForbidden { message } => (STATUS_FORBIDDEN, message@),
        Rejection::BodyDeserialize { message } => (STATUS_UNPROCESSABLE_ENTITY, message@),
        Rejection::Other => (STATUS_NOT_FOUND, "Route not found"@),
    }
}

/// The single terminal recovery point: tests the rejection against
/// each known kind in priority order and emits exactly one response.
pub fn return_error(r: Rejection) -> (resp: Response)
    ensures
        resp.status == recovery_spec(r).0,
        resp.body@ == recovery_spec(r).1,
{
    match r {
        Rejection::Application(e) => Response {
            status: STATUS_RANGE_NOT_SATISFIABLE,
            body: e.message(),
        },
        Rejection::CorsForbidden { message } => Response { status: STATUS_FORBIDDEN, body: message },
        Rejection::BodyDeserialize { message } => Response {
            status: STATUS_UNPROCESSABLE_ENTITY,
            body: message,
        },
        Rejection::Other => Response { status: STATUS_NOT_FOUND, body: "Route not found".to_owned() },
    }
}

} // verus!
