//! The identity of a logged-in user.
use vstd::prelude::*;

use crate::permission_levels::PermissionLevels;

verus! {

/// What a logged-in user may do: permission levels by name, and roles.
pub struct Identity {
    pub permissions: PermissionLevels,
    pub roles: Vec<String>,
}

} // verus!
