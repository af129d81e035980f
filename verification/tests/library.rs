use immortal_blog::backend::commons::utils::{fail, success};
use immortal_blog::backend::commons::Immortal;
use immortal_blog::backend::handlers::{
    activated_roles, activation_claims, author_options, login_claims, login_token, role_options,
    fresh_file_location, save_file_location, tag_creator_filter, users_answer, activation_mail, activation_token,
};
use immortal_blog::backend::middlewares::{Auth, Started};
use immortal_blog::backend::models::ImmortalResponse;
use immortal_blog::backend::utils::{
    cached_info, check_permission, check_permissions, get_user_id_from_header, stored_info_outcome,
    RespValue,
};
use immortal_blog::common::configs::{ACTIVATED_EMAIL_EXPIRE_TIME, EXPIRE_TIME, USER_PREFIX_KEY};
use immortal_blog::common::cors::{join_with_commas, AllOrSome, Cors};
use immortal_blog::common::extractors::ComplexQuery;
use immortal_blog::common::structs::{Claims, ErrorReply, ImmortalError};
use immortal_blog::common::utils::{
    claims_from_members, create_active_email, create_prefix_key, jwt_decode, jwt_decode_at,
    jwt_encode, uuid,
};
use immortal_blog::commons;
use immortal_blog::commons::immortal_error::ImmortalError as OldError;
use immortal_blog::commons::claims::Claims as OldClaims;
use immortal_blog::commons::middlewares::{Auth as OldAuth, AuthStart};
use immortal_blog::common::date_format::{self, NaiveTimestamp};
use immortal_blog::decimal::push_decimal;
use immortal_blog::permission_levels::PermissionLevels;

fn levels(pairs: &[(&str, i32)]) -> PermissionLevels {
    let mut m = PermissionLevels::new();
    for (name, level) in pairs {
        m.insert(name.to_string(), *level);
    }
    m
}

fn claims_map(id: i64, exp: i64) -> ::serde_json::Map<String, ::serde_json::Value> {
    let mut m = ::serde_json::Map::new();
    m.insert("id".to_string(), ::serde_json::Value::from(id));
    m.insert("exp".to_string(), ::serde_json::Value::from(exp));
    m
}

fn now() -> u64 {
    std::time::SystemTime::now()
        .duration_since(std::time::UNIX_EPOCH)
        .unwrap()
        .as_secs()
}

#[test]
fn lib_it_works() {
    assert_eq!(2 + 2, 4);
}

#[test]
fn immortal_codes_and_messages() {
    assert_eq!(Immortal::Success.code(), 200);
    assert_eq!(Immortal::Success.message(), "Request success");
    let err = Immortal::InternalError("Failed to load users".to_string());
    assert_eq!(err.code(), 500);
    assert_eq!(err.message(), "Internal server error caused by Failed to load users");
}

#[test]
fn response_envelopes() {
    let ok = ImmortalResponse::success(7);
    assert_eq!((ok.code, ok.message.as_str(), ok.data), (200, "Request success", Some(7)));
    let bad: ImmortalResponse<i32> = ImmortalResponse::fail(Immortal::InternalError("db".to_string()));
    assert_eq!(bad.code, 500);
    assert_eq!(bad.message, "Internal server error caused by db");
    assert_eq!(bad.data, None);
    let from = ImmortalResponse::from_immortal(Immortal::Success, Some("x"));
    assert_eq!(from.data, Some("x"));
    let s = success(vec![1, 2]);
    assert_eq!(s.data, Some(vec![1, 2]));
    assert_eq!(s.code, 200);
    let f: ImmortalResponse<()> = fail(Immortal::InternalError("e".to_string()));
    assert_eq!(f.code, 500);
    assert!(f.data.is_none());
    let c = immortal_blog::common::utils::success(5u8);
    assert_eq!((c.code, c.data, c.message.as_str()), (200, 5u8, ""));
}

#[test]
fn errors_map_to_replies() {
    assert_eq!(ImmortalError::ignore("anything"), ImmortalError::InternalError);
    assert_eq!(ImmortalError::InternalError.error_response(), ErrorReply { status: 500, reason: None });
    assert_eq!(
        ImmortalError::Unauthorized { err_msg: "Invalid token" }.error_response(),
        ErrorReply { status: 401, reason: Some("Invalid token") }
    );
    assert_eq!(
        ImmortalError::Forbidden { err_msg: "no" }.error_response(),
        ErrorReply { status: 403, reason: Some("no") }
    );
    assert_eq!(
        ImmortalError::BadRequest { err_msg: "bad" }.error_response(),
        ErrorReply { status: 400, reason: Some("bad") }
    );
    assert_eq!(OldError::ignore(3), OldError::InternalError);
    assert_eq!(OldError::InternalError.error_response().status, 500);
    assert_eq!(OldError::Unauthorized { err_msg: "u" }.error_response(), ErrorReply { status: 401, reason: Some("u") });
    assert_eq!(OldError::Forbidden { err_msg: "f" }.error_response(), ErrorReply { status: 403, reason: Some("f") });
}

#[test]
fn decimal_texts() {
    for n in [0i64, 7, 10, 42, -1, -305, i32::MIN as i64, i32::MAX as i64, i64::MIN, i64::MAX] {
        let mut s = String::from("n=");
        push_decimal(&mut s, n);
        assert_eq!(s, format!("n={}", n));
    }
}

#[test]
fn cache_keys() {
    assert_eq!(create_prefix_key(USER_PREFIX_KEY, 42), "immortal:user:42");
    assert_eq!(create_prefix_key("p", -7), "p:-7");
    assert_eq!(create_prefix_key("p", i32::MIN), "p:-2147483648");
    assert_ne!(create_prefix_key("p", 1), create_prefix_key("p", 11));
    assert_eq!(commons::utils::create_privileges_key(7), "immortal:privileges_7");
    assert_eq!(commons::utils::create_privileges_key(-12), "immortal:privileges_-12");
}

#[test]
fn uuids_are_random_v4_texts() {
    let a = uuid();
    let b = uuid();
    assert_ne!(a, b);
    for u in [&a, &b] {
        assert_eq!(u.len(), 36);
        let chars: Vec<char> = u.chars().collect();
        for (i, c) in chars.iter().enumerate() {
            if [8, 13, 18, 23].contains(&i) {
                assert_eq!(*c, '-');
            } else {
                assert!(c.is_ascii_hexdigit() && !c.is_ascii_uppercase());
            }
        }
        assert_eq!(chars[14], '4');
        assert!("89ab".contains(chars[19]));
        let parsed = ::uuid::Uuid::parse_str(u).unwrap();
        assert_eq!(parsed.get_version_num(), 4);
    }
}

#[test]
fn activation_mail_body() {
    let body = create_active_email();
    assert!(body.starts_with("\n<!DOCTYPE html>"));
    assert!(body.contains("Click link below to activate your account"));
    assert!(body.ends_with("</html>    "));
}

#[test]
fn tokens_round_trip() {
    let claims = Claims { id: 9, exp: now() as i64 + 3600 };
    let token = jwt_encode(&claims);
    assert_eq!(token.split('.').count(), 3);
    assert_eq!(jwt_decode(token.clone()), Ok(claims));
    assert_eq!(jwt_decode_at(&token, now()), Ok(claims));
}

#[test]
fn tokens_expire_after_the_leeway() {
    let claims = Claims { id: 3, exp: 1_000_000 };
    let token = jwt_encode(&claims);
    assert_eq!(jwt_decode_at(&token, 1_000_060), Ok(claims));
    assert_eq!(
        jwt_decode_at(&token, 1_000_061),
        Err(ImmortalError::Unauthorized { err_msg: "Token had expired" })
    );
    assert_eq!(
        jwt_decode(token),
        Err(ImmortalError::Unauthorized { err_msg: "Token had expired" })
    );
}

#[test]
fn bad_tokens_are_invalid() {
    let invalid = Err(ImmortalError::Unauthorized { err_msg: "Invalid token" });
    assert_eq!(jwt_decode("not a token".to_string()), invalid);
    let token = jwt_encode(&Claims { id: 1, exp: now() as i64 + 100 });
    let mut tampered = token.clone();
    tampered.pop();
    tampered.push(if token.ends_with('A') { 'B' } else { 'A' });
    assert_eq!(jwt_decode(tampered), invalid);
    let other_key = ::jsonwebtoken::encode(
        &::jsonwebtoken::Header::default(),
        &claims_map(1, now() as i64 + 100),
        &::jsonwebtoken::EncodingKey::from_secret(b"other"),
    )
    .unwrap();
    assert_eq!(jwt_decode(other_key), invalid);
}

#[test]
fn claim_members_decide_the_outcome() {
    let invalid = Err(ImmortalError::Unauthorized { err_msg: "Invalid token" });
    assert_eq!(claims_from_members(None, 10), invalid);
    assert_eq!(claims_from_members(Some((None, None, Some(100))), 10), invalid);
    assert_eq!(claims_from_members(Some((None, Some(1), None)), 10), invalid);
    assert_eq!(claims_from_members(Some((None, Some(1i64 << 40), Some(100))), 10), invalid);
    assert_eq!(claims_from_members(Some((Some("ann".to_string()), Some(5), Some(100))), 160), Ok(Claims { id: 5, exp: 100 }));
    assert_eq!(
        claims_from_members(Some((None, Some(5), Some(100))), 161),
        Err(ImmortalError::Unauthorized { err_msg: "Token had expired" })
    );
}

#[test]
fn permission_levels_map() {
    let mut m = PermissionLevels::new();
    assert_eq!(m.get("blog"), None);
    m.insert("blog".to_string(), 2);
    m.insert("tag".to_string(), 1);
    m.insert("blog".to_string(), 4);
    assert_eq!(m.get("blog"), Some(4));
    assert_eq!(m.get("tag"), Some(1));
    assert_eq!(m.entries().len(), 2);
}

#[test]
fn permission_checks() {
    let owned = levels(&[("blog", 3), ("tag", 1)]);
    assert!(check_permission("blog", 3, &owned));
    assert!(check_permission("blog", 2, &owned));
    assert!(!check_permission("blog", 4, &owned));
    assert!(!check_permission("user", 1, &owned));
    assert!(check_permission("user", 0, &owned));
    let admin = levels(&[("all", 5), ("blog", 1)]);
    assert!(check_permission("blog", 5, &admin));
    assert!(check_permission("anything", 5, &admin));
    assert!(!check_permission("anything", 6, &admin));
}

#[test]
fn required_permissions_admit_requests() {
    let owned = levels(&[("tag", 2)]);
    let forbidden = Err(ImmortalError::Forbidden { err_msg: "Has no permissions to access current service" });
    assert_eq!(check_permissions(&levels(&[("tag", 2)]), &owned), Ok(()));
    assert_eq!(check_permissions(&levels(&[("tag", 3)]), &owned), forbidden);
    assert_eq!(check_permissions(&levels(&[("user", 5), ("tag", 1)]), &owned), Ok(()));
    assert_eq!(check_permissions(&levels(&[]), &owned), forbidden);
    assert_eq!(check_permissions(&levels(&[("user", 5)]), &levels(&[("all", 5)])), Ok(()));
}

#[test]
fn user_id_from_header() {
    assert_eq!(
        get_user_id_from_header(None),
        Err(ImmortalError::Unauthorized { err_msg: "You may haven't logged in " })
    );
    let token = jwt_encode(&Claims { id: 77, exp: now() as i64 + 1000 });
    let header = format!("Bearer {}", token);
    assert_eq!(get_user_id_from_header(Some(&header)), Ok(77));
    assert_eq!(
        get_user_id_from_header(Some("Bearer garbage")),
        Err(ImmortalError::Unauthorized { err_msg: "Invalid token" })
    );
}

#[test]
fn cache_replies() {
    let one = Some(RespValue::Integer(1));
    let zero = Some(RespValue::Integer(0));
    assert_eq!(stored_info_outcome(&one, &zero), Ok(()));
    assert_eq!(stored_info_outcome(&Some(RespValue::Integer(2)), &zero), Err(ImmortalError::InternalError));
    assert_eq!(stored_info_outcome(&None, &one), Err(ImmortalError::InternalError));
    assert_eq!(stored_info_outcome(&one, &Some(RespValue::Nil)), Err(ImmortalError::InternalError));
    let p = Some(RespValue::BulkString(b"{\"roles\":[]}".to_vec()));
    let u = Some(RespValue::BulkString(b"{}".to_vec()));
    assert_eq!(cached_info(&p, &u), Some((b"{\"roles\":[]}".to_vec(), b"{}".to_vec())));
    assert_eq!(cached_info(&p, &Some(RespValue::Nil)), None);
    assert_eq!(cached_info(&None, &u), None);
}

#[test]
fn login_middlewares() {
    let auth = Auth;
    assert!(matches!(auth.start("/api/login", false), Started::Done));
    assert!(matches!(auth.start("/api/register", false), Started::Done));
    assert!(matches!(auth.start("/api/tags", true), Started::Done));
    match auth.start("/api/tags", false) {
        Started::Response(reply) => {
            assert_eq!(reply, ErrorReply { status: 401, reason: Some("You may haven't logged in ") })
        }
        Started::Done => panic!("request without login let through"),
    }
    let old = OldAuth;
    assert!(matches!(old.start("/api/login", None), AuthStart::Done));
    match old.start("/api/blogs", None) {
        AuthStart::Response(reply) => assert_eq!(reply, ErrorReply { status: 401, reason: Some("There isn't a token") }),
        _ => panic!("request without a token let through"),
    }
    let token = commons::utils::jwt_encode(&OldClaims { nickname: "ann".to_string(), id: 4, exp: now() as i64 + 600 });
    match old.start("/api/blogs", Some(&format!("Bearer {}", token))) {
        AuthStart::CheckPrivileges(claims) => assert_eq!((claims.nickname.as_str(), claims.id), ("ann", 4)),
        _ => panic!("valid token not accepted"),
    }
    match old.start("/api/blogs", Some("Bearer abc.def")) {
        AuthStart::Response(reply) => assert_eq!(reply, ErrorReply { status: 401, reason: Some("Invalid token") }),
        _ => panic!("invalid token let through"),
    }
}

#[test]
fn cross_origin_headers() {
    let cors = Cors::new(vec!["http://a.example".to_string(), "http://b.example".to_string()]);
    let middleware = cors.new_transform(());
    let plan = middleware.call("OPTIONS");
    assert!(plan.answer_directly);
    assert_eq!(plan.allow_origin, "http://a.example,http://b.example");
    assert_eq!(plan.allow_methods, "POST,GET,OPTIONS,PUT,DELETE");
    assert_eq!(plan.allow_headers, "Content-Type,Accept,Authorization");
    let any = Cors::default().new_transform(());
    let plan = any.call("GET");
    assert!(!plan.answer_directly);
    assert_eq!(plan.allow_origin, "*");
    assert!(matches!(Cors::default().allowed_origins, AllOrSome::All));
    assert_eq!(join_with_commas(&vec![]), "");
    assert_eq!(join_with_commas(&vec!["x".to_string()]), "x");
    let old = commons::middlewares::Cors::new(vec!["http://c.example", "http://d.example"]);
    let plan = old.response("OPTIONS");
    assert!(plan.answer_directly);
    assert_eq!(plan.allow_origin, "http://c.example,http://d.example");
    assert_eq!(plan.allow_methods, "POST,GET,OPTIONS,DELETE");
    assert_eq!(commons::middlewares::Cors::default().response("PUT").allow_origin, "*");
}

#[test]
fn complex_query_wrapper() {
    let mut q = ComplexQuery(vec![1, 2]);
    assert_eq!(q.len(), 2);
    q.push(3);
    assert_eq!(q.into_inner(), vec![1, 2, 3]);
}

#[test]
fn handler_decisions() {
    assert_eq!(login_claims(5, 1000), Claims { id: 5, exp: 1000 + EXPIRE_TIME });
    assert_eq!(activation_claims(5, 1000), Claims { id: 5, exp: 1000 + ACTIVATED_EMAIL_EXPIRE_TIME });
    assert_eq!(EXPIRE_TIME, 2_592_000);
    assert_eq!(ACTIVATED_EMAIL_EXPIRE_TIME, 86_400);
    let start = now() as i64;
    let token = login_token(12, start);
    assert_eq!(jwt_decode(token), Ok(Claims { id: 12, exp: start + EXPIRE_TIME }));
    assert_eq!(activated_roles(&vec![2, 5]), vec![3]);
    assert_eq!(activated_roles(&vec![1]), vec![1]);
    assert_eq!(activated_roles(&vec![3]), vec![3]);
    assert_eq!(activated_roles(&vec![4]), vec![4]);
    assert_eq!(tag_creator_filter(&vec!["writer".to_string()], "ann".to_string()), Some("ann".to_string()));
    assert_eq!(tag_creator_filter(&vec!["writer".to_string(), "immortal".to_string()], "ann".to_string()), None);
    assert_eq!(tag_creator_filter(&vec![], "bob".to_string()), Some("bob".to_string()));
    let roles = role_options(&vec![(1, "admin".to_string()), (-2, "guest".to_string())]);
    assert_eq!(roles.iter().map(|o| (o.id.as_str(), o.name.as_str())).collect::<Vec<_>>(), vec![("1", "admin"), ("-2", "guest")]);
    let users = vec![
        (1, "ann".to_string(), levels(&[("blog", 3)])),
        (2, "bob".to_string(), levels(&[("blog", 2)])),
        (30, "cy".to_string(), levels(&[("all", 9)])),
    ];
    let authors = author_options(&users);
    assert_eq!(authors.iter().map(|o| (o.id.as_str(), o.name.as_str())).collect::<Vec<_>>(), vec![("1", "ann"), ("30", "cy")]);
    let id = uuid();
    let (path, url) = save_file_location(&id, "http://blog.example", Some("cat.png"));
    assert_eq!(path, format!("static/{}_cat.png", id));
    assert_eq!(url, format!("http://blog.example/static/{}_cat.png", id));
    let (unnamed, _) = save_file_location(&id, "a", None);
    assert_eq!(unnamed, format!("static/{}_unknown", id));
}

#[test]
fn user_listing_answers() {
    let ok = users_answer::<&str, ()>(Ok(vec!["ann", "bob"]));
    assert_eq!((ok.code, ok.message.as_str(), ok.data), (200, "Request success", Some(vec!["ann", "bob"])));
    let failed = users_answer::<&str, &str>(Err("connection refused"));
    assert_eq!(failed.code, 500);
    assert_eq!(failed.message, "Internal server error caused by Failed to load users");
    assert!(failed.data.is_none());
}

#[test]
fn nickname_tokens_round_trip() {
    let exp = now() as i64 + 3600;
    let claims = OldClaims { nickname: "ann".to_string(), id: 8, exp };
    let token = commons::utils::jwt_encode(&claims);
    let read = commons::utils::jwt_decode(token.clone()).unwrap();
    assert_eq!((read.nickname.as_str(), read.id, read.exp), ("ann", 8, exp));
    let read = commons::utils::jwt_decode_at(&token, 0).unwrap();
    assert_eq!(read.nickname, "ann");
    // the shared claims ignore the nickname member
    assert_eq!(jwt_decode(token), Ok(Claims { id: 8, exp }));
}

#[test]
fn nickname_tokens_are_refused_when_expired_or_incomplete() {
    let token = commons::utils::jwt_encode(&OldClaims { nickname: "bo".to_string(), id: 2, exp: 1_000 });
    assert!(commons::utils::jwt_decode_at(&token, 1_060).is_ok());
    assert_eq!(commons::utils::jwt_decode_at(&token, 1_061).err(), Some(OldError::Unauthorized { err_msg: "Token had expired" }));
    assert_eq!(commons::utils::jwt_decode(token).err(), Some(OldError::Unauthorized { err_msg: "Token had expired" }));
    let no_nickname = jwt_encode(&Claims { id: 2, exp: now() as i64 + 100 });
    assert_eq!(commons::utils::jwt_decode(no_nickname).err(), Some(OldError::Unauthorized { err_msg: "Invalid token" }));
    assert_eq!(commons::utils::jwt_decode("x.y.z".to_string()).err(), Some(OldError::Unauthorized { err_msg: "Invalid token" }));
    let members = Some((Some("cy".to_string()), Some(3), Some(50)));
    assert_eq!(commons::utils::claims_from_members(members, 110).unwrap().nickname, "cy");
    assert!(commons::utils::claims_from_members(Some((Some("cy".to_string()), Some(3), Some(50))), 111).is_err());
    assert!(commons::utils::claims_from_members(Some((None, Some(3), Some(50))), 0).is_err());
}

#[test]
fn upload_addresses() {
    let (path, url) = fresh_file_location("http://blog.example", Some("cat.png"));
    assert!(path.starts_with("static/") && path.ends_with("_cat.png"));
    assert_eq!(path.len(), "static/".len() + 36 + "_cat.png".len());
    assert_eq!(url, format!("http://blog.example/{}", path));
    let (other, _) = fresh_file_location("http://blog.example", Some("cat.png"));
    assert_ne!(path, other);
    let (unnamed, unnamed_url) = fresh_file_location("a", None);
    assert!(unnamed.ends_with("_unknown"));
    assert_eq!(unnamed_url, format!("a/{}", unnamed));
}

#[test]
fn activation_pieces() {
    let start = now() as i64;
    let token = activation_token(6, start);
    assert_eq!(jwt_decode(token), Ok(Claims { id: 6, exp: start + ACTIVATED_EMAIL_EXPIRE_TIME }));
    let mail = activation_mail("ann@example.com".to_string(), "ann".to_string(), "noreply@example.com".to_string());
    assert_eq!(mail.tos, vec![("ann@example.com".to_string(), "ann".to_string())]);
    assert_eq!(mail.from, ("noreply@example.com".to_string(), "Immortal Blog"));
    assert_eq!(mail.subject, "Activated Account");
    assert_eq!(mail.content, create_active_email());
    assert!(mail.attachment_file.is_none());
}

#[test]
fn dates_as_text() {
    let at = |secs: i64| NaiveTimestamp { secs, nanos: 0 };
    assert_eq!(date_format::serialize(&at(0)), Some("1970-01-01 00:00:00".to_string()));
    assert_eq!(date_format::serialize(&at(1_566_000_123)), Some("2019-08-17 00:02:03".to_string()));
    assert_eq!(date_format::deserialize("2019-08-17 00:02:03"), Some(at(1_566_000_123)));
    assert_eq!(date_format::deserialize("1969-12-31 23:59:59"), Some(at(-1)));
    assert_eq!(date_format::deserialize("2019-08-17"), None);
    assert_eq!(date_format::serialize(&at(i64::MAX)), None);
    // a part of a second is left out when written
    assert_eq!(date_format::serialize(&NaiveTimestamp { secs: 0, nanos: 500 }), Some("1970-01-01 00:00:00".to_string()));
}

#[test]
fn dates_read_back_what_was_written() {
    for secs in [-62_167_219_200, -1, 0, 1_566_000_123, 253_402_300_799] {
        let text = date_format::serialize(&NaiveTimestamp { secs, nanos: 0 }).unwrap();
        assert_eq!(date_format::deserialize(&text), Some(NaiveTimestamp { secs, nanos: 0 }));
    }
    assert_eq!(date_format::serialize(&NaiveTimestamp { secs: -62_167_219_200, nanos: 0 }), Some("0000-01-01 00:00:00".to_string()));
    assert_eq!(date_format::serialize(&NaiveTimestamp { secs: 253_402_300_799, nanos: 0 }), Some("9999-12-31 23:59:59".to_string()));
}

#[test]
fn leap_seconds_are_kept() {
    let leap = NaiveTimestamp { secs: 1_483_228_799, nanos: 1_000_000_000 };
    assert_eq!(date_format::deserialize("2016-12-31 23:59:60"), Some(leap));
    assert_eq!(date_format::serialize(&leap), Some("2016-12-31 23:59:60".to_string()));
}
