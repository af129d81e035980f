//! Claims of the tokens that carry a nickname.
use vstd::prelude::*;

verus! {

/// The claims of a login token that names its user: nickname, user id and expiry.
pub struct Claims {
    pub nickname: String,
    pub id: i32,
    pub exp: i64,
}

} // verus!
