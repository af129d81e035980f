//! Payloads of the login and registration requests.
use vstd::prelude::*;

use crate::permission_levels::PermissionLevels;

verus! {

/// A login attempt.
pub struct LoginRequest {
    pub remember: bool,
    pub nickname: String,
    pub password: String,
}

/// The roles of a user and the permission levels they grant.
pub struct Privileges {
    pub roles: Vec<String>,
    pub permissions: PermissionLevels,
}

/// A new account.
pub struct RegisterRequest {
    pub nickname: String,
    pub password: String,
    pub email: String,
    pub sex: i32,
}

} // verus!
