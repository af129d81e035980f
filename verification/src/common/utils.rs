//! Helpers of the services: response envelopes, tokens, cache keys, ids and mail bodies.
use vstd::prelude::*;
use vstd::string::{StringExecFns, StringSliceAdditionalSpecFns};

use crate::common::structs::{Claims, ImmortalError, ImmortalResponse};
use crate::decimal::{digit_char, int_decimal, lemma_int_decimal_injective, push_decimal};
use crate::token::{current_timestamp, decode_hs256, encode_hs256, hs256_claim_members, hs256_token, members_view};

verus! {

/// Wraps `data` in a successful response envelope.
pub fn success<T>(data: T) -> (r: ImmortalResponse<T>)
    ensures
        r.code == 200,
        r.data == data,
        r.message@ == Seq::<char>::empty(),
{
    ImmortalResponse { code: 200, data, message: String::new() }
}

/// The secret with which tokens are signed.
pub const KEY: &'static str = "secret";

/// How many seconds past its expiry a token is still accepted.
pub const TOKEN_LEEWAY: i64 = 60;

/// The bytes of the signing secret.
pub open spec fn key_bytes() -> Seq<u8> {
    KEY.spec_bytes()
}

/// The error of a token that cannot be read or whose signature does not hold.
pub open spec fn invalid_token() -> ImmortalError {
    ImmortalError::Unauthorized { err_msg: "Invalid token" }
}

/// The error of a token read after its expiry and the leeway.
pub open spec fn expired_token() -> ImmortalError {
    ImmortalError::Unauthorized { err_msg: "Token had expired" }
}

/// What a token whose claim members are `members` gives at time `now` (a nickname member is
/// ignored): its claims when the id and expiry members are there, the id fits an `i32` and the expiry plus the leeway is not past; the
/// expiry error when only the time is wrong; else the invalid-token error.
pub open spec fn claims_outcome(members: Option<(Option<Seq<char>>, Option<i64>, Option<i64>)>, now: int) -> Result<Claims, ImmortalError> {
    match members {
        Some((_, Some(id), Some(exp))) =>
            if i32::MIN <= id <= i32::MAX {
                if exp < now - TOKEN_LEEWAY {
                    Err(expired_token())
                } else {
                    Ok(Claims { id: id as i32, exp })
                }
            } else {
                Err(invalid_token())
            },
        _ => Err(invalid_token()),
    }
}

/// Signs `claims` into a token.
pub fn jwt_encode(claims: &Claims) -> (token: String)
    ensures
        token@ == hs256_token(None, claims.id, claims.exp, key_bytes()),
        hs256_claim_members(token@, key_bytes()) == Some((None::<Seq<char>>, Some(claims.id as i64), Some(claims.exp))),
        forall|now: int| now - TOKEN_LEEWAY <= claims.exp ==>
            #[trigger] claims_outcome(hs256_claim_members(token@, key_bytes()), now) == Ok::<Claims, ImmortalError>(*claims),
{
    encode_hs256(None, claims.id, claims.exp, KEY.as_bytes())
}

/// The outcome of reading a token whose claim members are `members`, at time `now`.
pub fn claims_from_members(members: Option<(Option<String>, Option<i64>, Option<i64>)>, now: u64) -> (r: Result<Claims, ImmortalError>)
    ensures
        r == claims_outcome(members_view(members), now as int),
{
    match members {
        Some((_, Some(id), Some(exp))) => {
            if i32::MIN as i64 <= id && id <= i32::MAX as i64 {
                if (exp as i128) < (now as i128) - (TOKEN_LEEWAY as i128) {
                    Err(ImmortalError::Unauthorized { err_msg: "Token had expired" })
                } else {
                    Ok(Claims { id: id as i32, exp })
                }
            } else {
                Err(ImmortalError::Unauthorized { err_msg: "Invalid token" })
            }
        },
        _ => Err(ImmortalError::Unauthorized { err_msg: "Invalid token" }),
    }
}

/// A token that carries an id and an expiry is refused as expired when read more than the
/// leeway after its expiry, and gives exactly its id and expiry when read by then; with an id
/// that does not fit an `i32`, or without an id or expiry, it is invalid at every time.
pub proof fn lemma_token_expiry(nickname: Option<Seq<char>>, id: i64, exp: i64, now: int)
    ensures
        i32::MIN <= id <= i32::MAX && exp + TOKEN_LEEWAY < now ==>
            claims_outcome(Some((nickname, Some(id), Some(exp))), now) == Err::<Claims, ImmortalError>(expired_token()),
        i32::MIN <= id <= i32::MAX && now <= exp + TOKEN_LEEWAY ==>
            claims_outcome(Some((nickname, Some(id), Some(exp))), now) == Ok::<Claims, ImmortalError>(Claims { id: id as i32, exp }),
        !(i32::MIN <= id <= i32::MAX) ==>
            claims_outcome(Some((nickname, Some(id), Some(exp))), now) == Err::<Claims, ImmortalError>(invalid_token()),
        claims_outcome(Some((nickname, None, Some(exp))), now) == Err::<Claims, ImmortalError>(invalid_token()),
        claims_outcome(Some((nickname, Some(id), None)), now) == Err::<Claims, ImmortalError>(invalid_token()),
        claims_outcome(None, now) == Err::<Claims, ImmortalError>(invalid_token()),
{
}

/// A token signed for `claims` is read back as `claims` up to the leeway after its expiry and
/// refused as expired afterwards.
pub proof fn lemma_signed_token_expires(claims: Claims, token: Seq<char>, now: int)
    requires
        hs256_claim_members(token, key_bytes()) == Some((None::<Seq<char>>, Some(claims.id as i64), Some(claims.exp))),
    ensures
        claims.exp + TOKEN_LEEWAY < now ==>
            claims_outcome(hs256_claim_members(token, key_bytes()), now) == Err::<Claims, ImmortalError>(expired_token()),
        now <= claims.exp + TOKEN_LEEWAY ==>
            claims_outcome(hs256_claim_members(token, key_bytes()), now) == Ok::<Claims, ImmortalError>(claims),
{
    lemma_token_expiry(None, claims.id as i64, claims.exp, now);
}

/// Reads the claims of `token` at time `now`.
pub fn jwt_decode_at(token: &str, now: u64) -> (r: Result<Claims, ImmortalError>)
    ensures
        r == claims_outcome(hs256_claim_members(token@, key_bytes()), now as int),
{
    claims_from_members(decode_hs256(token, KEY.as_bytes()), now)
}

/// Reads the claims of `token` at the time `now` that it reads from the clock with
/// `current_timestamp`: its claims, unless it cannot be read or its signature does not hold
/// (invalid token) or it expired more than the leeway before `now` (expired token).
pub fn jwt_decode(token: String) -> (r: Result<Claims, ImmortalError>)
    ensures
        exists|now: u64| call_ensures(current_timestamp, (), now)
            && r == #[trigger] claims_outcome(hs256_claim_members(token@, key_bytes()), now as int),
{
    let now = current_timestamp();
    jwt_decode_at(token.as_str(), now)
}

/// The key under which something of user `id` is kept: the prefix, a colon and the id.
pub open spec fn prefix_key(prefix: Seq<char>, id: int) -> Seq<char> {
    prefix + seq![':'] + int_decimal(id)
}

/// Makes the cache key `prefix:id`.
pub fn create_prefix_key(prefix: &str, id: i32) -> (key: String)
    ensures
        key@ == prefix_key(prefix@, id as int),
{
    proof { reveal_strlit(":"); }
    let mut key = String::from_str(prefix);
    key.append(":");
    push_decimal(&mut key, id as i64);
    assert(key@ =~= prefix_key(prefix@, id as int));
    key
}

/// Under one prefix, distinct ids have distinct keys.
pub proof fn lemma_prefix_keys_distinct(prefix: Seq<char>, a: int, b: int)
    requires
        a != b,
    ensures
        prefix_key(prefix, a) != prefix_key(prefix, b),
{
    if prefix_key(prefix, a) == prefix_key(prefix, b) {
        let n = prefix.len() + 1;
        assert(prefix_key(prefix, a).subrange(n as int, prefix_key(prefix, a).len() as int) =~= int_decimal(a));
        assert(prefix_key(prefix, b).subrange(n as int, prefix_key(prefix, b).len() as int) =~= int_decimal(b));
        lemma_int_decimal_injective(a, b);
    }
}

/// The lower-case hex digit of `d`, for `d` below 16.
pub open spec fn hex_digit(d: int) -> char {
    if d < 10 {
        digit_char(d as nat)
    } else if d == 10 {
        'a'
    } else if d == 11 {
        'b'
    } else if d == 12 {
        'c'
    } else if d == 13 {
        'd'
    } else if d == 14 {
        'e'
    } else {
        'f'
    }
}

/// How many hyphens the hyphenated form of a uuid has before position `i`.
pub open spec fn hyphens_before(i: int) -> int {
    if i <= 8 { 0 } else if i <= 13 { 1 } else if i <= 18 { 2 } else if i <= 23 { 3 } else { 4 }
}

/// Whether position `i` of the hyphenated form holds a hyphen.
pub open spec fn is_hyphen_position(i: int) -> bool {
    i == 8 || i == 13 || i == 18 || i == 23
}

/// The hyphenated lower-case form of the uuid made of `bytes`: two hex digits per byte, high
/// nibble first, with a hyphen after the 4th, 6th, 8th and 10th byte.
pub open spec fn hyphenated(bytes: Seq<u8>) -> Seq<char> {
    Seq::new(36, |i: int|
        if is_hyphen_position(i) {
            '-'
        } else {
            let j = i - hyphens_before(i);
            if j % 2 == 0 { hex_digit((bytes[j / 2] / 16) as int) } else { hex_digit((bytes[j / 2] % 16) as int) }
        })
}

/// Whether `c` is a lower-case hex digit.
pub open spec fn is_lower_hex(c: char) -> bool {
    ('0' <= c && c <= '9') || ('a' <= c && c <= 'f')
}

/// Whether `s` is the text of a random (version 4, RFC 4122 variant) uuid: 36 characters,
/// hyphens at positions 8, 13, 18 and 23, lower-case hex digits elsewhere, the version digit `4`
/// at position 14 and a variant digit `8`, `9`, `a` or `b` at position 19.
pub open spec fn is_v4_uuid_text(s: Seq<char>) -> bool {
    &&& s.len() == 36
    &&& forall|i: int| 0 <= i < 36 ==> (if is_hyphen_position(i) { s[i] == '-' } else { is_lower_hex(#[trigger] s[i]) })
    &&& s[14] == '4'
    &&& (s[19] == '8' || s[19] == '9' || s[19] == 'a' || s[19] == 'b')
}

/// `uuid::Uuid::new_v4`, as the uuid's sixteen bytes in order.
///
/// Trusted: the bytes are random but for the version and variant bits, which the crate sets by
/// masking: the high nibble of byte 6 is 4 and the two high bits of byte 8 are `10`. Nothing
/// else is promised; the crate panics when the system offers no random bytes.
#[verifier::external_body]
fn new_v4_bytes() -> (bytes: [u8; 16])
    ensures
        bytes@[6] & 0xf0 == 0x40,
        bytes@[8] & 0xc0 == 0x80,
{
    *uuid::Uuid::new_v4().as_bytes()
}

/// The `Display` text of `uuid::Uuid::from_bytes(bytes)`.
///
/// Trusted: the crate prints a uuid in its hyphenated lower-case form, as `hyphenated` states.
#[verifier::external_body]
fn uuid_text(bytes: [u8; 16]) -> (text: String)
    ensures
        text@ == hyphenated(bytes@),
{
    uuid::Uuid::from_bytes(bytes).to_string()
}

/// A fresh random uuid in its hyphenated text form.
pub fn uuid() -> (id: String)
    ensures
        is_v4_uuid_text(id@),
{
    let bytes = new_v4_bytes();
    let text = uuid_text(bytes);
    proof {
        let b6 = bytes@[6];
        let b8 = bytes@[8];
        assert(b6 / 16 == 4) by (bit_vector)
            requires b6 & 0xf0 == 0x40;
        assert(8 <= b8 / 16 <= 11) by (bit_vector)
            requires b8 & 0xc0 == 0x80;
        assert forall|i: int| 0 <= i < 36 implies (if is_hyphen_position(i) { text@[i] == '-' } else { is_lower_hex(#[trigger] text@[i]) }) by {
            if !is_hyphen_position(i) {
                let j = i - hyphens_before(i);
                assert(0 <= j / 2 < 16);
                let b = bytes@[j / 2];
                assert(0 <= b / 16 < 16 && 0 <= b % 16 < 16);
            }
        }
    }
    text
}

/// The body of the mail that asks a user to activate the account.
pub const ACTIVE_EMAIL: &'static str = r#"
<!DOCTYPE html>
<html lang="en">
<head>
    <meta charset="UTF-8">
    <title>Title</title>
</head>
<body>
    <p>Thank you for your confirmation!</p>
    <p>
        Click link below to activate your account<br>
        <a href='//www.baidu.com'>www.baidu.com</a>
    </p>
</body>
</html>    "#;

/// The HTML body of an account activation mail.
pub fn create_active_email() -> (body: String)
    ensures
        body@ == ACTIVE_EMAIL@,
{
    String::from_str(ACTIVE_EMAIL)
}

/// Whether a mail server's reply is positive: its code starts with 2 (the request was
/// completed) or 3 (the server waits for more, as after accepting a mail's start).
pub open spec fn positive_reply(severity: u8) -> bool {
    severity == 2 || severity == 3
}

/// The outcome of sending a mail, from what happened to it: `Err` when it could not be handed
/// to the mail server, else the first digit of the server's reply code. A positive reply means
/// the mail was sent; a failed hand-over or a negative reply is an internal error.
pub fn mail_outcome<E>(sent: Result<u8, E>) -> (r: Result<(), ImmortalError>)
    ensures
        r == (if sent matches Ok(severity) && positive_reply(severity) {
            Ok::<(), ImmortalError>(())
        } else {
            Err(ImmortalError::InternalError)
        }),
{
    match sent {
        Ok(severity) => {
            if severity == 2 || severity == 3 {
                Ok(())
            } else {
                Err(ImmortalError::ignore(severity))
            }
        },
        Err(e) => Err(ImmortalError::ignore(e)),
    }
}

} // verus!
