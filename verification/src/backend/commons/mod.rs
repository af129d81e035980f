//! Outcomes of backend requests and the envelopes that report them.
pub mod utils;

use vstd::prelude::*;
use vstd::string::StringExecFns;


verus! {

/// How a request went: it succeeded, or an internal error with its cause.
pub enum Immortal {
    Success,
    InternalError(String),
}

/// A status code with its message.
struct CodeMessage {
    pub code: i32,
    pub message: String,
}

/// The status code that reports `immortal`.
pub open spec fn immortal_code(immortal: Immortal) -> i32 {
    match immortal {
        Immortal::Success => 200,
        Immortal::InternalError(_) => 500,
    }
}

/// The message that reports `immortal`.
pub open spec fn immortal_message(immortal: Immortal) -> Seq<char> {
    match immortal {
        Immortal::Success => "Request success"@,
        Immortal::InternalError(cause) => "Internal server error caused by "@ + cause@,
    }
}

impl Immortal {
    fn value(&self) -> (v: CodeMessage)
        ensures
            v.code == immortal_code(*self),
            v.message@ == immortal_message(*self),
    {
        match self {
            Immortal::Success => CodeMessage { code: 200, message: String::from_str("Request success") },
            Immortal::InternalError(err_cause) => {
                let message = String::from_str("Internal server error caused by ").concat(err_cause.as_str());
                CodeMessage { code: 500, message }
            },
        }
    }

    /// The status code: 200 for success, 500 for an internal error.
    pub fn code(&self) -> (code: i32)
        ensures
            code == immortal_code(*self),
    {
        self.value().code
    }

    /// The message: "Request success", or "Internal server error caused by " and the cause.
    pub fn message(&self) -> (message: String)
        ensures
            message@ == immortal_message(*self),
    {
        self.value().message
    }
}

/// Log configuration file of the backend.
pub const LOG_CONFIG: &'static str = "configs/log4rs.yaml";

} // verus!
