//! Helpers of the account services: tokens that carry a nickname, and the privileges cache key.
use vstd::prelude::*;
use vstd::string::{StringExecFns, StringSliceAdditionalSpecFns};

use crate::commons::claims::Claims;
use crate::commons::configs::PRIVILEGES_PREFIX_KEY;
use crate::commons::immortal_error::ImmortalError;
use crate::decimal::{int_decimal, push_decimal};
use crate::token::{current_timestamp, decode_hs256, encode_hs256, hs256_claim_members, hs256_token, members_view};

verus! {

/// The secret with which tokens are signed.
pub const KEY: &'static str = "secret";

/// How many seconds past its expiry a token is still accepted.
pub const TOKEN_LEEWAY: i64 = 60;

/// The bytes of the signing secret.
pub open spec fn key_bytes() -> Seq<u8> {
    KEY.spec_bytes()
}

/// The error of a token that cannot be read or whose signature does not hold.
pub open spec fn invalid_token() -> ImmortalError {
    ImmortalError::Unauthorized { err_msg: "Invalid token" }
}

/// The error of a token read after its expiry and the leeway.
pub open spec fn expired_token() -> ImmortalError {
    ImmortalError::Unauthorized { err_msg: "Token had expired" }
}

/// The texts of a token's claims: nickname, id and expiry.
pub open spec fn claims_view(c: Claims) -> (Seq<char>, i32, i64) {
    (c.nickname@, c.id, c.exp)
}

/// What a token whose claim members are `members` gives at time `now`: its claims (nickname, id,
/// expiry) when the three members are there, the id fits an `i32` and the expiry plus the
/// leeway is not past; the expiry error when only the time is wrong; else the invalid-token
/// error.
pub open spec fn claims_outcome(members: Option<(Option<Seq<char>>, Option<i64>, Option<i64>)>, now: int) -> Result<(Seq<char>, i32, i64), ImmortalError> {
    match members {
        Some((Some(nickname), Some(id), Some(exp))) =>
            if i32::MIN <= id <= i32::MAX {
                if exp < now - TOKEN_LEEWAY {
                    Err(expired_token())
                } else {
                    Ok((nickname, id as i32, exp))
                }
            } else {
                Err(invalid_token())
            },
        _ => Err(invalid_token()),
    }
}

/// Whether `r` is the outcome `outcome`, claims taken by their texts.
pub open spec fn is_outcome(r: Result<Claims, ImmortalError>, outcome: Result<(Seq<char>, i32, i64), ImmortalError>) -> bool {
    match r {
        Ok(c) => outcome == Ok::<(Seq<char>, i32, i64), ImmortalError>(claims_view(c)),
        Err(e) => outcome == Err::<(Seq<char>, i32, i64), ImmortalError>(e),
    }
}

/// Signs `claims` into a token.
pub fn jwt_encode(claims: &Claims) -> (token: String)
    ensures
        token@ == hs256_token(Some(claims.nickname@), claims.id, claims.exp, key_bytes()),
        forall|now: int| now - TOKEN_LEEWAY <= claims.exp ==>
            #[trigger] claims_outcome(hs256_claim_members(token@, key_bytes()), now)
                == Ok::<(Seq<char>, i32, i64), ImmortalError>(claims_view(*claims)),
{
    encode_hs256(Some(claims.nickname.as_str()), claims.id, claims.exp, KEY.as_bytes())
}

/// The outcome of reading a token whose claim members are `members`, at time `now`.
pub fn claims_from_members(members: Option<(Option<String>, Option<i64>, Option<i64>)>, now: u64) -> (r: Result<Claims, ImmortalError>)
    ensures
        is_outcome(r, claims_outcome(members_view(members), now as int)),
{
    match members {
        Some((Some(nickname), Some(id), Some(exp))) => {
            if i32::MIN as i64 <= id && id <= i32::MAX as i64 {
                if (exp as i128) < (now as i128) - (TOKEN_LEEWAY as i128) {
                    Err(ImmortalError::Unauthorized { err_msg: "Token had expired" })
                } else {
                    Ok(Claims { nickname, id: id as i32, exp })
                }
            } else {
                Err(ImmortalError::Unauthorized { err_msg: "Invalid token" })
            }
        },
        _ => Err(ImmortalError::Unauthorized { err_msg: "Invalid token" }),
    }
}

/// Reads the claims of `token` at time `now`.
pub fn jwt_decode_at(token: &str, now: u64) -> (r: Result<Claims, ImmortalError>)
    ensures
        is_outcome(r, claims_outcome(hs256_claim_members(token@, key_bytes()), now as int)),
{
    claims_from_members(decode_hs256(token, KEY.as_bytes()), now)
}

/// Reads the claims of `token` now: its claims, unless it cannot be read, its signature does
/// not hold or a member is missing (invalid token), or it expired more than the leeway ago
/// (expired token).
pub fn jwt_decode(token: String) -> (r: Result<Claims, ImmortalError>)
    ensures
        exists|now: u64| call_ensures(current_timestamp, (), now)
            && is_outcome(r, #[trigger] claims_outcome(hs256_claim_members(token@, key_bytes()), now as int)),
{
    let now = current_timestamp();
    jwt_decode_at(token.as_str(), now)
}

/// The cache key of the privileges of user `info`: the privileges prefix, an underscore and the id.
pub fn create_privileges_key(info: i32) -> (key: String)
    ensures
        key@ == PRIVILEGES_PREFIX_KEY@ + "_"@ + int_decimal(info as int),
{
    let mut key = String::from_str(PRIVILEGES_PREFIX_KEY);
    key.append("_");
    push_decimal(&mut key, info as i64);
    key
}

} // verus!
