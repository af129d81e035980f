//! Data that backend requests carry and answer with.
use vstd::prelude::*;

use crate::backend::commons::{immortal_code, immortal_message, Immortal};

verus! {

/// The envelope of a backend answer: message, status code and, on success, the data.
pub struct ImmortalResponse<T> {
    pub message: String,
    pub code: i32,
    pub data: Option<T>,
}

impl<T> ImmortalResponse<T> {
    /// The envelope that reports `immortal` with `data`.
    pub fn from_immortal(immortal: Immortal, data: Option<T>) -> (r: Self)
        ensures
            r.code == immortal_code(immortal),
            r.message@ == immortal_message(immortal),
            r.data == data,
    {
        let code = immortal.code();
        let message = immortal.message();
        ImmortalResponse { data, code, message }
    }

    /// A successful answer carrying `data`.
    pub fn success(data: T) -> (r: Self)
        ensures
            r.code == 200,
            r.message@ == "Request success"@,
            r.data == Some(data),
    {
        ImmortalResponse::from_immortal(Immortal::Success, Some(data))
    }

    /// A failed answer reporting `err`, with no data.
    pub fn fail(err: Immortal) -> (r: Self)
        ensures
            r.code == immortal_code(err),
            r.message@ == immortal_message(err),
            r.data is None,
    {
        ImmortalResponse::from_immortal(err, None)
    }
}

/// The query that asks for the users with a given phone number.
pub struct GetUser {
    pub phone: Option<String>,
}

/// The query string of the user listing.
pub struct Info {
    pub phone: Option<String>,
}

/// A login attempt.
pub struct LoginRequest {
    pub remember: bool,
    pub nickname: String,
    pub password: String,
}

/// The roles and permissions of a user.
pub struct Privileges {
    pub roles: Vec<String>,
    pub permissions: Vec<String>,
}

/// The answer to a successful login: the token and the user's privileges.
pub struct LoginResponse {
    pub token: String,
    pub privileges: Privileges,
}

/// What the login query finds of a user.
pub struct AuthInfo {
    pub id: i32,
    pub roles: Vec<String>,
    pub permissions: Vec<String>,
}

} // verus!
