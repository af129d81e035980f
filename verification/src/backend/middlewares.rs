//! The login check in front of the backend's services.
use vstd::prelude::*;
use vstd::string::StringExecFns;

use crate::common::structs::{ErrorReply, ImmortalError};

verus! {

/// The middleware that turns away requests made without logging in.
pub struct Auth;

/// What the middleware does with a request: let it through, or answer it at once.
pub enum Started {
    Done,
    Response(ErrorReply),
}

/// The paths that need no login.
pub open spec fn is_open_path(path: Seq<char>) -> bool {
    path == "/api/login"@ || path == "/api/register"@
}

impl Auth {
    /// Lets through the login and registration requests and every request that carries an
    /// `Authorization` header; answers any other with 401 "You may haven't logged in ".
    pub fn start(&self, path: &str, has_authorization: bool) -> (s: Started)
        ensures
            (is_open_path(path@) || has_authorization) ==> s is Done,
            !(is_open_path(path@) || has_authorization) ==>
                s == Started::Response(ErrorReply { status: 401, reason: Some("You may haven't logged in ") }),
            path@ != "/api/login"@ && path@ != "/api/register"@ && !has_authorization ==>
                s == Started::Response(ErrorReply { status: 401, reason: Some("You may haven't logged in ") }),
            path@ == "/api/login"@ || path@ == "/api/register"@ ==> s is Done,
    {
        let path = String::from_str(path);
        if path == String::from_str("/api/login") || path == String::from_str("/api/register") {
            Started::Done
        } else if has_authorization {
            Started::Done
        } else {
            Started::Response(ImmortalError::Unauthorized { err_msg: "You may haven't logged in " }.error_response())
        }
    }
}

/// Only the login and the registration need no login: every other path is closed to a request
/// without an `Authorization` header.
pub proof fn lemma_open_paths_are_login_and_register(path: Seq<char>)
    ensures
        is_open_path(path) <==> (path == "/api/login"@ || path == "/api/register"@),
{
}

} // verus!
