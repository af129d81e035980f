//! Errors of the account services.
use vstd::prelude::*;

use crate::common::structs::ErrorReply;

verus! {

/// The errors that the services answer with.
#[derive(Debug, Clone, Copy, PartialEq, Eq)]
pub enum ImmortalError {
    InternalError,
    Unauthorized { err_msg: &'static str },
    Forbidden { err_msg: &'static str },
}

/// The status and reason of the response that answers `e`.
pub open spec fn error_reply(e: ImmortalError) -> ErrorReply {
    match e {
        ImmortalError::InternalError => ErrorReply { status: 500, reason: None },
        ImmortalError::Unauthorized { err_msg } => ErrorReply { status: 401, reason: Some(err_msg) },
        ImmortalError::Forbidden { err_msg } => ErrorReply { status: 403, reason: Some(err_msg) },
    }
}

impl ImmortalError {
    /// Turns any failure into an internal error.
    pub fn ignore<T>(any: T) -> (e: Self)
        ensures
            e == ImmortalError::InternalError,
    {
        ImmortalError::InternalError
    }

    /// The status and reason of the response that answers this error.
    pub fn error_response(&self) -> (reply: ErrorReply)
        ensures
            reply == error_reply(*self),
    {
        match *self {
            ImmortalError::InternalError => ErrorReply { status: 500, reason: None },
            ImmortalError::Unauthorized { err_msg } => ErrorReply { status: 401, reason: Some(err_msg) },
            ImmortalError::Forbidden { err_msg } => ErrorReply { status: 403, reason: Some(err_msg) },
        }
    }
}

} // verus!
