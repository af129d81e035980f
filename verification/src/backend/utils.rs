//! Permission checks, the user id carried in a request, and the reading of cached user data.
use vstd::prelude::*;
use vstd::string::{StrSliceExecFns, StringExecFns};

use crate::common::structs::{Claims, ImmortalError};
use crate::common::configs::USER_PREFIX_KEY;
use crate::common::utils::{claims_outcome, create_prefix_key, jwt_decode, key_bytes, prefix_key};
use crate::token::{current_timestamp, hs256_claim_members};
use crate::permission_levels::PermissionLevels;

verus! {

/// The level that `owned` grants for `name`: the recorded level, or 0 when there is none.
pub open spec fn owned_level(owned: Map<Seq<char>, i32>, name: Seq<char>) -> int {
    if owned.dom().contains(name) { owned[name] as int } else { 0 }
}

/// Whether `owned` grants permission `name` at `level`: the level is at most the greater of
/// the level owned for `name` and the level owned for `all`.
pub open spec fn permits(name: Seq<char>, level: int, owned: Map<Seq<char>, i32>) -> bool {
    let own = owned_level(owned, name);
    let all = owned_level(owned, "all"@);
    level <= (if own >= all { own } else { all })
}

/// Whether some permission that `required` names is granted at its level by `owned`.
pub open spec fn grants_any(required: Map<Seq<char>, i32>, owned: Map<Seq<char>, i32>) -> bool {
    exists|name: Seq<char>| #[trigger] required.dom().contains(name) && permits(name, required[name] as int, owned)
}

/// The error of a request that no required permission covers.
pub open spec fn no_permission() -> ImmortalError {
    ImmortalError::Forbidden { err_msg: "Has no permissions to access current service" }
}

/// Whether `owned_permissions` grants permission `name` at `level`.
pub fn check_permission(name: &str, level: i32, owned_permissions: &PermissionLevels) -> (granted: bool)
    ensures
        granted == permits(name@, level as int, owned_permissions@),
{
    let own = match owned_permissions.get(name) {
        Some(l) => l,
        None => 0,
    };
    let all = match owned_permissions.get("all") {
        Some(l) => l,
        None => 0,
    };
    let owned_level = if own >= all { own } else { all };
    level <= owned_level
}

/// Lets a request through when `owned_permissions` grants at least one of the permissions in
/// `require_permissions` at its level; else refuses it as forbidden.
pub fn check_permissions(require_permissions: &PermissionLevels, owned_permissions: &PermissionLevels) -> (r: Result<(), ImmortalError>)
    ensures
        r == (if grants_any(require_permissions@, owned_permissions@) { Ok::<(), ImmortalError>(()) } else { Err(no_permission()) }),
{
    let entries = require_permissions.entries();
    let mut i: usize = 0;
    while i < entries.len()
        invariant
            i <= entries@.len(),
            forall|j: int| 0 <= j < entries@.len() ==>
                require_permissions@.dom().contains(#[trigger] entries@[j].0@) && require_permissions@[entries@[j].0@] == entries@[j].1,
            forall|name: Seq<char>| #[trigger] require_permissions@.dom().contains(name) ==>
                exists|j: int| 0 <= j < entries@.len() && #[trigger] entries@[j].0@ == name,
            forall|j: int| 0 <= j < i ==> !permits(#[trigger] entries@[j].0@, entries@[j].1 as int, owned_permissions@),
        decreases entries@.len() - i,
    {
        if check_permission(entries[i].0.as_str(), entries[i].1, owned_permissions) {
            assert(require_permissions@.dom().contains(entries@[i as int].0@));
            return Ok(());
        }
        i = i + 1;
    }
    assert forall|name: Seq<char>| #[trigger] require_permissions@.dom().contains(name) implies
        !permits(name, require_permissions@[name] as int, owned_permissions@) by {
        let j = choose|j: int| 0 <= j < entries@.len() && #[trigger] entries@[j].0@ == name;
        assert(!permits(entries@[j].0@, entries@[j].1 as int, owned_permissions@));
    }
    Err(ImmortalError::Forbidden { err_msg: "Has no permissions to access current service" })
}

/// A permission granted at some level is granted at every lower level.
pub proof fn lemma_lower_level_permitted(name: Seq<char>, level: int, lower: int, owned: Map<Seq<char>, i32>)
    requires
        permits(name, level, owned),
        lower <= level,
    ensures
        permits(name, lower, owned),
{
}

/// The `all` permission grants every permission up to its own level.
pub proof fn lemma_all_grants_every_name(name: Seq<char>, level: int, owned: Map<Seq<char>, i32>)
    requires
        owned.dom().contains("all"@),
        level <= owned["all"@],
    ensures
        permits(name, level, owned),
{
}

/// Raising the levels a user owns never takes a permission away.
pub proof fn lemma_more_owned_keeps_permission(name: Seq<char>, level: int, owned: Map<Seq<char>, i32>, more: Map<Seq<char>, i32>)
    requires
        forall|k: Seq<char>| #[trigger] owned_level(more, k) >= owned_level(owned, k),
        permits(name, level, owned),
    ensures
        permits(name, level, more),
{
    assert(owned_level(more, name) >= owned_level(owned, name));
    assert(owned_level(more, "all"@) >= owned_level(owned, "all"@));
}

/// Raising the levels a user owns never turns an admitted request into a forbidden one.
pub proof fn lemma_more_owned_keeps_access(required: Map<Seq<char>, i32>, owned: Map<Seq<char>, i32>, more: Map<Seq<char>, i32>)
    requires
        forall|k: Seq<char>| #[trigger] owned_level(more, k) >= owned_level(owned, k),
        grants_any(required, owned),
    ensures
        grants_any(required, more),
{
    let name = choose|name: Seq<char>| #[trigger] required.dom().contains(name) && permits(name, required[name] as int, owned);
    lemma_more_owned_keeps_permission(name, required[name] as int, owned, more);
}

/// With no permission required, every request is refused.
pub proof fn lemma_nothing_required_is_forbidden(owned: Map<Seq<char>, i32>)
    ensures
        !grants_any(Map::<Seq<char>, i32>::empty(), owned),
{
}

/// The error of a request without a token.
pub open spec fn not_logged_in() -> ImmortalError {
    ImmortalError::Unauthorized { err_msg: "You may haven't logged in " }
}

/// The user id that the outcome of reading a token gives.
pub open spec fn id_outcome(claims: Result<Claims, ImmortalError>) -> Result<i32, ImmortalError> {
    match claims {
        Ok(c) => Ok(c.id),
        Err(e) => Err(e),
    }
}

/// The id of the user whose token is in the `Authorization` header, after its seven-character
/// scheme (`Bearer `); without the header the request is not logged in.
pub fn get_user_id_from_header(authorization: Option<&str>) -> (r: Result<i32, ImmortalError>)
    requires
        authorization matches Some(h) ==> h.is_ascii() && h@.len() >= 7,
    ensures
        authorization is None ==> r == Err::<i32, ImmortalError>(not_logged_in()),
        authorization matches Some(h) ==> exists|now: u64| call_ensures(current_timestamp, (), now) && r == id_outcome(#[trigger] claims_outcome(
            hs256_claim_members(h@.subrange(7, h@.len() as int), key_bytes()), now as int)),
{
    match authorization {
        Some(header) => {
            let token = header.substring_ascii(7, header.unicode_len());
            match jwt_decode(String::from_str(token)) {
                Ok(claims) => Ok(claims.id),
                Err(e) => Err(e),
            }
        },
        None => Err(ImmortalError::Unauthorized { err_msg: "You may haven't logged in " }),
    }
}

/// A reply of the cache server.
pub enum RespValue {
    Nil,
    Array(Vec<RespValue>),
    BulkString(Vec<u8>),
    Error(String),
    Integer(i64),
    SimpleString(String),
}

/// Whether a cache write was acknowledged: a reply that counts at most one new field.
pub open spec fn write_acknowledged(reply: Option<RespValue>) -> bool {
    reply matches Some(RespValue::Integer(x)) && x <= 1
}

/// The outcome of storing a user's privileges and information in the cache, from the replies to
/// the two writes (`None` where a write failed): done when both were acknowledged, else an
/// internal error.
pub fn stored_info_outcome(privileges_reply: &Option<RespValue>, user_info_reply: &Option<RespValue>) -> (r: Result<(), ImmortalError>)
    ensures
        r == (if write_acknowledged(*privileges_reply) && write_acknowledged(*user_info_reply) {
            Ok::<(), ImmortalError>(())
        } else {
            Err(ImmortalError::InternalError)
        }),
{
    let privileges_ok = match privileges_reply {
        Some(RespValue::Integer(x)) => *x <= 1,
        _ => false,
    };
    let user_info_ok = match user_info_reply {
        Some(RespValue::Integer(x)) => *x <= 1,
        _ => false,
    };
    if privileges_ok && user_info_ok {
        Ok(())
    } else {
        Err(ImmortalError::ignore("Redis internal server error"))
    }
}

/// The cached texts of a user's privileges and information, from the replies to the two
/// reads: both texts when both reads found one, else `None` (the data must then be loaded).
pub fn cached_info(privileges_reply: &Option<RespValue>, user_info_reply: &Option<RespValue>) -> (r: Option<(Vec<u8>, Vec<u8>)>)
    ensures
        match (*privileges_reply, *user_info_reply) {
            (Some(RespValue::BulkString(p)), Some(RespValue::BulkString(u))) => r matches Some((rp, ru)) && rp@ == p@ && ru@ == u@,
            _ => r is None,
        },
{
    match (privileges_reply, user_info_reply) {
        (Some(RespValue::BulkString(p)), Some(RespValue::BulkString(u))) => Some((p.clone(), u.clone())),
        _ => None,
    }
}

/// The words of a cache command.
pub open spec fn command_words(command: Seq<String>) -> Seq<Seq<char>> {
    command.map_values(|word: String| word@)
}

/// The cache key under which the data of user `id` is kept.
pub open spec fn user_key(id: i32) -> Seq<char> {
    prefix_key(USER_PREFIX_KEY@, id as int)
}

/// The two cache writes that store a user's privileges and information, given as their JSON
/// texts: each sets one field of the user's hash.
pub fn store_info_commands(id: i32, privileges: String, user_info: String) -> (r: (Vec<String>, Vec<String>))
    ensures
        command_words(r.0@) == seq!["HSET"@, user_key(id), "privileges"@, privileges@],
        command_words(r.1@) == seq!["HSET"@, user_key(id), "user_info"@, user_info@],
{
    let key = create_prefix_key(USER_PREFIX_KEY, id);
    let first = vec![String::from_str("HSET"), key.clone(), String::from_str("privileges"), privileges];
    let second = vec![String::from_str("HSET"), key, String::from_str("user_info"), user_info];
    assert(command_words(first@) =~= seq!["HSET"@, user_key(id), "privileges"@, first@[3]@]);
    assert(command_words(second@) =~= seq!["HSET"@, user_key(id), "user_info"@, second@[3]@]);
    (first, second)
}

/// The two cache reads that fetch a user's privileges and information.
pub fn read_info_commands(id: i32) -> (r: (Vec<String>, Vec<String>))
    ensures
        command_words(r.0@) == seq!["HGET"@, user_key(id), "privileges"@],
        command_words(r.1@) == seq!["HGET"@, user_key(id), "user_info"@],
{
    let key = create_prefix_key(USER_PREFIX_KEY, id);
    let first = vec![String::from_str("HGET"), key.clone(), String::from_str("privileges")];
    let second = vec![String::from_str("HGET"), key, String::from_str("user_info")];
    assert(command_words(first@) =~= seq!["HGET"@, user_key(id), "privileges"@]);
    assert(command_words(second@) =~= seq!["HGET"@, user_key(id), "user_info"@]);
    (first, second)
}

} // verus!
