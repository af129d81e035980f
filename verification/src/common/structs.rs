//! Claims carried in tokens, the service error and the response envelope.
use vstd::prelude::*;

verus! {

/// Marks the types that can stand as the claims of a token.
pub trait BasicClaims {}

/// The claims of a login token: the user's id and when the token expires.
#[derive(Debug, Clone, Copy, PartialEq, Eq)]
pub struct Claims {
    pub id: i32,
    pub exp: i64,
}

impl BasicClaims for Claims {}

/// The claims of an account activation token: the users it activates and when it expires.
#[derive(Debug, PartialEq, Eq)]
pub struct ActivatedEmailClaims {
    pub ids: Vec<i32>,
    pub exp: i64,
}

impl BasicClaims for ActivatedEmailClaims {}

/// The errors that the services answer with.
#[derive(Debug, Clone, Copy, PartialEq, Eq)]
pub enum ImmortalError {
    InternalError,
    Unauthorized { err_msg: &'static str },
    Forbidden { err_msg: &'static str },
    BadRequest { err_msg: &'static str },
}

/// What an error is answered with: an HTTP status and, for the client errors, the reason phrase.
#[derive(Debug, Clone, Copy, PartialEq, Eq)]
pub struct ErrorReply {
    pub status: u16,
    pub reason: Option<&'static str>,
}

impl ImmortalError {
    /// Turns any failure whose detail should not reach the client into an internal error.
    pub fn ignore<T>(err: T) -> (e: Self)
        ensures
            e == ImmortalError::InternalError,
    {
        ImmortalError::InternalError
    }

    /// The status and reason of the response that answers this error.
    pub fn error_response(&self) -> (reply: ErrorReply)
        ensures
            reply == (match *self {
                ImmortalError::InternalError => ErrorReply { status: 500, reason: None },
                ImmortalError::Unauthorized { err_msg } => ErrorReply { status: 401, reason: Some(err_msg) },
                ImmortalError::Forbidden { err_msg } => ErrorReply { status: 403, reason: Some(err_msg) },
                ImmortalError::BadRequest { err_msg } => ErrorReply { status: 400, reason: Some(err_msg) },
            }),
    {
        match *self {
            ImmortalError::InternalError => ErrorReply { status: 500, reason: None },
            ImmortalError::Unauthorized { err_msg } => ErrorReply { status: 401, reason: Some(err_msg) },
            ImmortalError::Forbidden { err_msg } => ErrorReply { status: 403, reason: Some(err_msg) },
            ImmortalError::BadRequest { err_msg } => ErrorReply { status: 400, reason: Some(err_msg) },
        }
    }
}

/// A file attached to a mail: where it is, the name it is sent under, and its content type.
pub struct AttachFile {
    pub path: String,
    pub filename: Option<String>,
    pub content_type: String,
}

/// A mail: its recipients, sender, subject, body and attachment.
pub struct EmailMessage<T, K, H, J> {
    pub tos: Vec<T>,
    pub from: K,
    pub subject: J,
    pub content: H,
    pub attachment_file: Option<AttachFile>,
}

/// The envelope in which the services answer: a status code, the data and a message.
pub struct ImmortalResponse<T> {
    pub code: i32,
    pub data: T,
    pub message: String,
}

} // verus!
