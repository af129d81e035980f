//! The services that require permissions, and the levels each one requires.
use vstd::prelude::*;
use vstd::string::StringExecFns;

use crate::backend::utils::{check_permissions, grants_any, no_permission, permits};
use crate::common::structs::ImmortalError;
use crate::permission_levels::PermissionLevels;

verus! {

/// A request handler that admits only users holding a permission.
#[derive(Debug, Clone, Copy, PartialEq, Eq)]
pub enum Service {
    GetCategories,
    CreateCategory,
    DeleteCategory,
    UpdateCategory,
    GetRoleOptions,
    GetTags,
    CreateTag,
    DeleteTag,
    UpdateTag,
    GetUsers,
    GetAuthorOptions,
    ForbidUsers,
}

/// The permission a service requires: its name and the level at which it must be held.
pub open spec fn requirement(service: Service) -> (Seq<char>, i32) {
    match service {
        Service::GetCategories => ("category"@, 2),
        Service::CreateCategory => ("category"@, 3),
        Service::DeleteCategory => ("category"@, 3),
        Service::UpdateCategory => ("category"@, 3),
        Service::GetRoleOptions => ("role"@, 2),
        Service::GetTags => ("tag"@, 2),
        Service::CreateTag => ("tag"@, 3),
        Service::DeleteTag => ("tag"@, 3),
        Service::UpdateTag => ("tag"@, 3),
        Service::GetUsers => ("user"@, 2),
        Service::GetAuthorOptions => ("user"@, 2),
        Service::ForbidUsers => ("user"@, 5),
    }
}

/// The permissions a service requires, as a map from permission name to level.
pub open spec fn required_map(service: Service) -> Map<Seq<char>, i32> {
    Map::<Seq<char>, i32>::empty().insert(requirement(service).0, requirement(service).1)
}

/// The permissions that `service` requires.
pub fn required_permissions(service: Service) -> (required: PermissionLevels)
    ensures
        required@ == required_map(service),
{
    let (name, level) = match service {
        Service::GetCategories => ("category", 2),
        Service::CreateCategory => ("category", 3),
        Service::DeleteCategory => ("category", 3),
        Service::UpdateCategory => ("category", 3),
        Service::GetRoleOptions => ("role", 2),
        Service::GetTags => ("tag", 2),
        Service::CreateTag => ("tag", 3),
        Service::DeleteTag => ("tag", 3),
        Service::UpdateTag => ("tag", 3),
        Service::GetUsers => ("user", 2),
        Service::GetAuthorOptions => ("user", 2),
        Service::ForbidUsers => ("user", 5),
    };
    let mut required = PermissionLevels::new();
    required.insert(String::from_str(name), level);
    required
}

/// Lets a request for `service` through when `owned` grants the permission that the service
/// requires at its level; else refuses it as forbidden.
pub fn admit_service(service: Service, owned: &PermissionLevels) -> (r: Result<(), ImmortalError>)
    ensures
        r == (if permits(requirement(service).0, requirement(service).1 as int, owned@) {
            Ok::<(), ImmortalError>(())
        } else {
            Err(no_permission())
        }),
{
    let required = required_permissions(service);
    let r = check_permissions(&required, owned);
    proof {
        lemma_grants_single(service, owned@);
    }
    r
}

/// With a single required permission, a request is admitted exactly when that permission is
/// granted.
proof fn lemma_grants_single(service: Service, owned: Map<Seq<char>, i32>)
    ensures
        grants_any(required_map(service), owned) == permits(requirement(service).0, requirement(service).1 as int, owned),
{
    let (name, level) = requirement(service);
    if permits(name, level as int, owned) {
        assert(required_map(service).dom().contains(name));
    }
}

/// Whether `service` changes what it serves (creating, deleting, updating or forbidding)
/// rather than reading it.
pub open spec fn is_write(service: Service) -> bool {
    !(service is GetCategories || service is GetRoleOptions || service is GetTags || service is GetUsers
        || service is GetAuthorOptions)
}

/// A user admitted to a service that changes categories, tags or users is admitted to the
/// listing of the same kind: every write requires a higher level of the same permission.
pub proof fn lemma_writers_may_read(write: Service, read: Service, owned: Map<Seq<char>, i32>)
    requires
        is_write(write),
        !is_write(read),
        requirement(write).0 == requirement(read).0,
        permits(requirement(write).0, requirement(write).1 as int, owned),
    ensures
        permits(requirement(read).0, requirement(read).1 as int, owned),
{
}

} // verus!
