//! Signing and reading HS256 tokens with `jsonwebtoken`: the calls, and names for their results.
use vstd::prelude::*;

verus! {

/// The text of an optional string slice.
pub open spec fn optional_text(s: Option<&str>) -> Option<Seq<char>> {
    match s {
        Some(t) => Some(t@),
        None => None,
    }
}

/// The claim members that a reading finds, as texts and integers.
pub open spec fn members_view(m: Option<(Option<String>, Option<i64>, Option<i64>)>) -> Option<(Option<Seq<char>>, Option<i64>, Option<i64>)> {
    match m {
        Some((nickname, id, exp)) => Some((
            match nickname {
                Some(n) => Some(n@),
                None => None,
            },
            id,
            exp,
        )),
        None => None,
    }
}

/// The token that `jsonwebtoken::encode` makes, under the default header (HS256) and the HMAC
/// secret `key`, of the claims `{"nickname": nickname, "id": id, "exp": exp}`, the nickname
/// member left out when there is none.
pub uninterp spec fn hs256_token(nickname: Option<Seq<char>>, id: i32, exp: i64, key: Seq<u8>) -> Seq<char>;

/// What `jsonwebtoken::decode` finds in `token` when it checks the HS256 signature with the
/// secret `key` and checks no claim: `None` when it refuses the token, else the `nickname`
/// member where it is a string, and the `id` and `exp` members where they are integers.
pub uninterp spec fn hs256_claim_members(token: Seq<char>, key: Seq<u8>) -> Option<(Option<Seq<char>>, Option<i64>, Option<i64>)>;

/// Signs the claims `{"nickname": nickname, "id": id, "exp": exp}` (no nickname member when
/// `nickname` is `None`) with `jsonwebtoken::encode`, default header (HS256).
///
/// Trusted: the token is named by `hs256_token`; and, as the crate's HMAC round trip shows,
/// `jsonwebtoken::decode` with the same secret accepts it and finds the same members. The
/// crate's `encode` fails only when the key's family differs from the header's algorithm or the
/// claims do not serialize, which cannot happen for an HMAC secret and a map of strings and
/// integers.
#[verifier::external_body]
pub(crate) fn encode_hs256(nickname: Option<&str>, id: i32, exp: i64, key: &[u8]) -> (token: String)
    ensures
        token@ == hs256_token(optional_text(nickname), id, exp, key@),
        hs256_claim_members(token@, key@) == Some((optional_text(nickname), Some(id as i64), Some(exp))),
{
    let mut claims = serde_json::Map::new();
    claims.extend(nickname.map(|n| ("nickname".to_owned(), serde_json::Value::from(n))));
    claims.insert("id".to_owned(), serde_json::Value::from(id));
    claims.insert("exp".to_owned(), serde_json::Value::from(exp));
    let header = jsonwebtoken::Header::default();
    jsonwebtoken::encode(&header, &claims, &jsonwebtoken::EncodingKey::from_secret(key)).expect("HS256 signing")
}

/// Reads a token with `jsonwebtoken::decode`, checking the HS256 signature against the secret
/// `key` and no claim (expiry, audience and required claims are left to the caller).
///
/// Trusted: the result is named by `hs256_claim_members`; with those checks off the crate reads
/// no clock, so the result depends on the token and the key alone.
#[verifier::external_body]
pub(crate) fn decode_hs256(token: &str, key: &[u8]) -> (members: Option<(Option<String>, Option<i64>, Option<i64>)>)
    ensures
        members_view(members) == hs256_claim_members(token@, key@),
{
    let mut validation = jsonwebtoken::Validation::new(jsonwebtoken::Algorithm::HS256);
    validation.validate_exp = false;
    validation.validate_aud = false;
    validation.required_spec_claims.clear();
    let key = jsonwebtoken::DecodingKey::from_secret(key);
    match jsonwebtoken::decode::<serde_json::Map<String, serde_json::Value>>(token, &key, &validation) {
        Ok(data) => Some((data.claims.get("nickname").and_then(serde_json::Value::as_str).map(str::to_owned),
            data.claims.get("id").and_then(serde_json::Value::as_i64),
            data.claims.get("exp").and_then(serde_json::Value::as_i64))),
        Err(_) => None,
    }
}

/// `jsonwebtoken::get_current_timestamp`: the seconds since the Unix epoch, read from the
/// system clock. Nothing is promised of the value; the crate panics when the clock reads
/// before the epoch, which no precondition can rule out. The functions that read tokens at the
/// current time say so by `call_ensures(current_timestamp, (), now)`: `now` is a value that a
/// call of this function returned.
#[verifier::external_body]
pub fn current_timestamp() -> (now: u64) {
    jsonwebtoken::get_current_timestamp()
}

} // verus!
