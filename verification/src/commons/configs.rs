//! Settings of the account services.
use vstd::prelude::*;

verus! {

/// The prefix of the cache keys that hold a user's privileges.
pub const PRIVILEGES_PREFIX_KEY: &'static str = "immortal:privileges";

} // verus!
