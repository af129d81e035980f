//! The decisions that the backend's request handlers make between their calls to the database
//! and the cache.
use vstd::prelude::*;
use vstd::string::StringExecFns;

use crate::backend::commons::utils::{fail, success};
use crate::backend::commons::Immortal;
use crate::backend::models::ImmortalResponse;
use crate::backend::utils::{check_permission, permits};
use crate::common::configs::{ACTIVATED_EMAIL_EXPIRE_TIME, EXPIRE_TIME};
use crate::common::date_format::NaiveTimestamp;
use crate::common::structs::{Claims, EmailMessage, ImmortalError};
use crate::common::utils::{
    claims_outcome, create_active_email, expired_token, lemma_signed_token_expires, is_v4_uuid_text, jwt_encode, key_bytes, uuid, ACTIVE_EMAIL,
    TOKEN_LEEWAY,
};
use crate::token::{hs256_claim_members, hs256_token};
use crate::decimal::{int_decimal, push_decimal};
use crate::permission_levels::PermissionLevels;

verus! {

/// An entry of a selection list: an id and a name.
pub struct SelectOption {
    pub id: String,
    pub name: String,
}

/// The texts of a selection list.
pub open spec fn option_texts(options: Seq<SelectOption>) -> Seq<(Seq<char>, Seq<char>)> {
    options.map_values(|o: SelectOption| (o.id@, o.name@))
}

/// The decimal text of `n`.
fn decimal_text(n: i32) -> (s: String)
    ensures
        s@ == int_decimal(n as int),
{
    let mut s = String::new();
    push_decimal(&mut s, n as i64);
    s
}

/// The claims of the token handed out at login by user `id` at time `now`: they expire
/// `EXPIRE_TIME` seconds later.
pub fn login_claims(id: i32, now: i64) -> (c: Claims)
    requires
        now + EXPIRE_TIME <= i64::MAX,
    ensures
        c == (Claims { id, exp: (now + EXPIRE_TIME) as i64 }),
{
    Claims { id, exp: now + EXPIRE_TIME }
}

/// The token handed out at login by user `id` at time `now`: it reads back as the login claims
/// until their expiry and the leeway have passed.
pub fn login_token(id: i32, now: i64) -> (token: String)
    requires
        now + EXPIRE_TIME <= i64::MAX,
    ensures
        token@ == hs256_token(None, id, (now + EXPIRE_TIME) as i64, key_bytes()),
        forall|t: int| t - TOKEN_LEEWAY <= now + EXPIRE_TIME ==>
            #[trigger] claims_outcome(hs256_claim_members(token@, key_bytes()), t)
                == Ok::<Claims, ImmortalError>(Claims { id, exp: (now + EXPIRE_TIME) as i64 }),
        forall|t: int| now + EXPIRE_TIME + TOKEN_LEEWAY < t ==>
            #[trigger] claims_outcome(hs256_claim_members(token@, key_bytes()), t) == Err::<Claims, ImmortalError>(expired_token()),
{
    let claims = login_claims(id, now);
    let token = jwt_encode(&claims);
    proof {
        assert forall|t: int| now + EXPIRE_TIME + TOKEN_LEEWAY < t implies
            #[trigger] claims_outcome(hs256_claim_members(token@, key_bytes()), t) == Err::<Claims, ImmortalError>(expired_token()) by {
            lemma_signed_token_expires(claims, token@, t);
        }
    }
    token
}

/// The claims of the token mailed to user `id` at time `now` to activate the account: they
/// expire `ACTIVATED_EMAIL_EXPIRE_TIME` seconds later.
pub fn activation_claims(id: i32, now: i64) -> (c: Claims)
    requires
        now + ACTIVATED_EMAIL_EXPIRE_TIME <= i64::MAX,
    ensures
        c == (Claims { id, exp: (now + ACTIVATED_EMAIL_EXPIRE_TIME) as i64 }),
{
    Claims { id, exp: now + ACTIVATED_EMAIL_EXPIRE_TIME }
}

/// The token mailed to user `id` at time `now` to activate the account: it reads back as the
/// activation claims until their expiry and the leeway have passed.
pub fn activation_token(id: i32, now: i64) -> (token: String)
    requires
        now + ACTIVATED_EMAIL_EXPIRE_TIME <= i64::MAX,
    ensures
        token@ == hs256_token(None, id, (now + ACTIVATED_EMAIL_EXPIRE_TIME) as i64, key_bytes()),
        forall|t: int| t - TOKEN_LEEWAY <= now + ACTIVATED_EMAIL_EXPIRE_TIME ==>
            #[trigger] claims_outcome(hs256_claim_members(token@, key_bytes()), t)
                == Ok::<Claims, ImmortalError>(Claims { id, exp: (now + ACTIVATED_EMAIL_EXPIRE_TIME) as i64 }),
        forall|t: int| now + ACTIVATED_EMAIL_EXPIRE_TIME + TOKEN_LEEWAY < t ==>
            #[trigger] claims_outcome(hs256_claim_members(token@, key_bytes()), t) == Err::<Claims, ImmortalError>(expired_token()),
{
    let claims = activation_claims(id, now);
    let token = jwt_encode(&claims);
    proof {
        assert forall|t: int| now + ACTIVATED_EMAIL_EXPIRE_TIME + TOKEN_LEEWAY < t implies
            #[trigger] claims_outcome(hs256_claim_members(token@, key_bytes()), t) == Err::<Claims, ImmortalError>(expired_token()) by {
            lemma_signed_token_expires(claims, token@, t);
        }
    }
    token
}

/// The mail type the services send: addressed to (address, name) pairs, from an address under a
/// fixed name, with an HTML body and a fixed subject.
pub type ActivationMail = EmailMessage<(String, String), (String, &'static str), String, &'static str>;

/// Whether `mail` asks the user with address `email` and nickname `nickname` to activate the
/// account: sent to that address and nickname alone, from `sender` as "Immortal Blog", with
/// subject "Activated Account", the activation page as its body and no attachment.
pub open spec fn is_activation_mail(mail: ActivationMail, email: Seq<char>, nickname: Seq<char>, sender: Seq<char>) -> bool {
    &&& mail.tos@.len() == 1
    &&& mail.tos@[0].0@ == email
    &&& mail.tos@[0].1@ == nickname
    &&& mail.from.0@ == sender
    &&& mail.from.1@ == "Immortal Blog"@
    &&& mail.subject@ == "Activated Account"@
    &&& mail.content@ == ACTIVE_EMAIL@
    &&& mail.attachment_file is None
}

/// The mail that asks a user to activate the account: sent to the user's address and nickname,
/// from `sender` as "Immortal Blog", with subject "Activated Account", the activation page as its
/// body and no attachment.
pub fn activation_mail(email: String, nickname: String, sender: String) -> (mail: ActivationMail)
    ensures
        is_activation_mail(mail, email@, nickname@, sender@),
{
    let content = create_active_email();
    let tos = vec![(email, nickname)];
    EmailMessage { tos, content, from: (sender, "Immortal Blog"), subject: "Activated Account", attachment_file: None }
}

/// A notification waiting for a user: its kind, title, text, the page it links to, its image
/// and when it was made.
pub struct Notice {
    pub message_type: String,
    pub title: String,
    pub content: String,
    pub href: Option<String>,
    pub img: Option<String>,
    pub created_at: NaiveTimestamp,
}

/// Whether `notices` are what is queued for user `id` once the activation mail has gone out: a
/// single welcome notice of kind "notifications", titled "Welcome to activate", saying "Thank you
/// for your activation", linking to the user center, with the image at `img`, made at
/// `created_at`.
pub open spec fn is_activation_notices(notices: Seq<(i32, Vec<Notice>)>, id: i32, img: Seq<char>, created_at: NaiveTimestamp) -> bool {
    &&& notices.len() == 1
    &&& notices[0].0 == id
    &&& notices[0].1@.len() == 1
    &&& notices[0].1@[0].message_type@ == "notifications"@
    &&& notices[0].1@[0].title@ == "Welcome to activate"@
    &&& notices[0].1@[0].content@ == "Thank you for your activation"@
    &&& notices[0].1@[0].href matches Some(h) && h@ == "/user-center"@
    &&& notices[0].1@[0].img matches Some(i) && i@ == img
    &&& notices[0].1@[0].created_at == created_at
}

/// The notifications queued for user `id` once the activation mail has gone out (see
/// `is_activation_notices`).
pub fn activation_notices(id: i32, img: String, created_at: NaiveTimestamp) -> (r: Vec<(i32, Vec<Notice>)>)
    ensures
        is_activation_notices(r@, id, img@, created_at),
{
    let notice = Notice {
        message_type: String::from_str("notifications"),
        title: String::from_str("Welcome to activate"),
        content: String::from_str("Thank you for your activation"),
        href: Some(String::from_str("/user-center")),
        img: Some(img),
        created_at,
    };
    vec![(id, vec![notice])]
}

/// The role given to an activated user whose first role is `role`: a role above the forbidden
/// one (1) and below the activated one (3) is raised to 3; any other is kept.
pub open spec fn activated_role_of(role: i32) -> i32 {
    if 1 < role && role < 3 { 3 } else { role }
}

/// The roles an account gets on activation, from its current roles: its first role, raised to
/// the activated role where it stood between the forbidden and the activated role.
pub fn activated_roles(roles: &Vec<i32>) -> (r: Vec<i32>)
    requires
        roles@.len() >= 1,
    ensures
        r@ == seq![activated_role_of(roles@[0])],
{
    let mut role = roles[0];
    let forbidden_role: i32 = 1;
    let target_level: i32 = 3;
    if role < target_level && role > forbidden_role {
        role = target_level;
    }
    let r = vec![role];
    assert(r@ =~= seq![activated_role_of(roles@[0])]);
    r
}

/// The creator to whom a tag listing is restricted: none for a user with the `immortal` role,
/// who sees every tag; the user's own nickname for anyone else.
pub fn tag_creator_filter(roles: &Vec<String>, nickname: String) -> (created_by: Option<String>)
    ensures
        (exists|i: int| 0 <= i < roles@.len() && #[trigger] roles@[i]@ == "immortal"@) ==> created_by is None,
        !(exists|i: int| 0 <= i < roles@.len() && #[trigger] roles@[i]@ == "immortal"@) ==>
            (created_by matches Some(n) && n@ == nickname@),
{
    let immortal = String::from_str("immortal");
    let mut i: usize = 0;
    while i < roles.len()
        invariant
            i <= roles@.len(),
            immortal@ == "immortal"@,
            forall|j: int| 0 <= j < i ==> #[trigger] roles@[j]@ != "immortal"@,
        decreases roles@.len() - i,
    {
        if roles[i] == immortal {
            return None;
        }
        i = i + 1;
    }
    Some(nickname)
}

/// The selection list of roles: each role's id in decimal with its name, in order.
pub fn role_options(roles: &Vec<(i32, String)>) -> (options: Vec<SelectOption>)
    ensures
        options@.len() == roles@.len(),
        forall|i: int| 0 <= i < roles@.len() ==>
            (#[trigger] options@[i]).id@ == int_decimal(roles@[i].0 as int) && options@[i].name@ == roles@[i].1@,
{
    let mut options: Vec<SelectOption> = Vec::new();
    let mut i: usize = 0;
    while i < roles.len()
        invariant
            i <= roles@.len(),
            options@.len() == i,
            forall|j: int| 0 <= j < i ==>
                (#[trigger] options@[j]).id@ == int_decimal(roles@[j].0 as int) && options@[j].name@ == roles@[j].1@,
        decreases roles@.len() - i,
    {
        let name = roles[i].1.clone();
        options.push(SelectOption { id: decimal_text(roles[i].0), name });
        i = i + 1;
    }
    options
}

/// The authors among `users` (id, nickname, permissions): those granted the `blog` permission
/// at level 3, as selection entries in order.
pub open spec fn author_entries(users: Seq<(i32, String, PermissionLevels)>) -> Seq<(Seq<char>, Seq<char>)>
    decreases users.len(),
{
    if users.len() == 0 {
        Seq::empty()
    } else {
        let last = users.last();
        let rest = author_entries(users.drop_last());
        if permits("blog"@, 3, last.2@) { rest.push((int_decimal(last.0 as int), last.1@)) } else { rest }
    }
}

/// Whether a user (id, nickname, permissions) may write blogs: the `blog` permission at level 3.
pub open spec fn may_write_blogs(user: (i32, String, PermissionLevels)) -> bool {
    permits("blog"@, 3, user.2@)
}

/// The selection entry of a user: the decimal text of the id and the nickname.
pub open spec fn user_entry(user: (i32, String, PermissionLevels)) -> (Seq<char>, Seq<char>) {
    (int_decimal(user.0 as int), user.1@)
}

/// The author entries are exactly the users who may write blogs, kept in order and each turned
/// into its entry: none is left out, none is added, none is moved.
pub proof fn lemma_author_entries_are_the_writers(users: Seq<(i32, String, PermissionLevels)>)
    ensures
        author_entries(users) == users.filter(|u: (i32, String, PermissionLevels)| may_write_blogs(u)).map_values(
            |u: (i32, String, PermissionLevels)| user_entry(u),
        ),
    decreases users.len(),
{
    let pred = |u: (i32, String, PermissionLevels)| may_write_blogs(u);
    let f = |u: (i32, String, PermissionLevels)| user_entry(u);
    if users.len() == 0 {
        reveal(Seq::filter);
        assert(users.filter(pred) =~= Seq::<(i32, String, PermissionLevels)>::empty());
        assert(users.filter(pred).map_values(f) =~= Seq::<(Seq<char>, Seq<char>)>::empty());
    } else {
        let rest = users.drop_last();
        let last = users.last();
        lemma_author_entries_are_the_writers(rest);
        assert(users =~= rest.push(last));
        rest.lemma_filter_push(last, pred);
        if pred(last) {
            assert(rest.filter(pred).push(last).map_values(f) =~= rest.filter(pred).map_values(f).push(f(last)));
        }
    }
}

/// Every user who may write blogs is among the author entries.
pub proof fn lemma_every_writer_is_an_author(users: Seq<(i32, String, PermissionLevels)>, i: int)
    requires
        0 <= i < users.len(),
        may_write_blogs(users[i]),
    ensures
        author_entries(users).contains(user_entry(users[i])),
    decreases users.len(),
{
    let rest = users.drop_last();
    if i == users.len() - 1 {
        assert(author_entries(users).last() == user_entry(users[i]));
    } else {
        lemma_every_writer_is_an_author(rest, i);
        let j = choose|j: int| 0 <= j < author_entries(rest).len() && author_entries(rest)[j] == user_entry(users[i]);
        if may_write_blogs(users.last()) {
            assert(author_entries(users)[j] == user_entry(users[i]));
        }
    }
}

/// Every author entry is the entry of a user who may write blogs.
pub proof fn lemma_every_author_is_a_writer(users: Seq<(i32, String, PermissionLevels)>, e: (Seq<char>, Seq<char>))
    requires
        author_entries(users).contains(e),
    ensures
        exists|i: int| 0 <= i < users.len() && may_write_blogs(users[i]) && #[trigger] user_entry(users[i]) == e,
    decreases users.len(),
{
    let rest = users.drop_last();
    let k = choose|k: int| 0 <= k < author_entries(users).len() && author_entries(users)[k] == e;
    if may_write_blogs(users.last()) && k == author_entries(users).len() - 1 {
        assert(user_entry(users[users.len() - 1]) == e);
    } else {
        assert(author_entries(rest)[k] == e);
        lemma_every_author_is_a_writer(rest, e);
        let i = choose|i: int| 0 <= i < rest.len() && may_write_blogs(rest[i]) && #[trigger] user_entry(rest[i]) == e;
        assert(users[i] == rest[i]);
    }
}

/// The selection list of the users who may write blogs.
pub fn author_options(users: &Vec<(i32, String, PermissionLevels)>) -> (options: Vec<SelectOption>)
    ensures
        option_texts(options@) == author_entries(users@),
        option_texts(options@) == users@.filter(|u: (i32, String, PermissionLevels)| may_write_blogs(u)).map_values(
            |u: (i32, String, PermissionLevels)| user_entry(u),
        ),
{
    let mut options: Vec<SelectOption> = Vec::new();
    let mut i: usize = 0;
    while i < users.len()
        invariant
            i <= users@.len(),
            option_texts(options@) == author_entries(users@.take(i as int)),
        decreases users@.len() - i,
    {
        assert(users@.take(i + 1).drop_last() =~= users@.take(i as int));
        if check_permission("blog", 3, &users[i].2) {
            let name = users[i].1.clone();
            options.push(SelectOption { id: decimal_text(users[i].0), name });
        }
        assert(option_texts(options@) =~= author_entries(users@.take(i + 1)));
        i = i + 1;
    }
    assert(users@.take(users@.len() as int) =~= users@);
    proof {
        lemma_author_entries_are_the_writers(users@);
    }
    options
}

/// The name an uploaded file goes by: its own name, or `unknown` when it has none.
pub open spec fn upload_name(filename: Option<&str>) -> Seq<char> {
    match filename {
        Some(name) => name@,
        None => "unknown"@,
    }
}

/// Where an uploaded file with the id `id` is saved and where it is served: the path is
/// `static/`, the id, an underscore and the file's name (`unknown` when it has none); the
/// address is the server's address `address`, a slash and that same path.
pub fn save_file_location(id: &str, address: &str, filename: Option<&str>) -> (r: (String, String))
    requires
        is_v4_uuid_text(id@),
    ensures
        r.0@ == "static/"@ + id@ + "_"@ + upload_name(filename),
        r.1@ == address@ + "/"@ + r.0@,
{
    let mut path = String::from_str("static/");
    path.append(id);
    path.append("_");
    match filename {
        Some(name) => path.append(name),
        None => path.append("unknown"),
    }
    let mut url = String::from_str(address);
    url.append("/");
    url.append(path.as_str());
    (path, url)
}

/// The saving path and the public address of a newly uploaded file, under a fresh random uuid:
/// both name the same file, as `save_file_location` gives them for that uuid.
pub fn fresh_file_location(address: &str, filename: Option<&str>) -> (r: (String, String))
    ensures
        exists|id: Seq<char>| #[trigger] is_v4_uuid_text(id) && r.0@ == "static/"@ + id + "_"@ + upload_name(filename),
        r.1@ == address@ + "/"@ + r.0@,
{
    let id = uuid();
    save_file_location(id.as_str(), address, filename)
}

/// The answer to the user listing, from what the database gave: the users on success, else an
/// internal error caused by "Failed to load users".
pub fn users_answer<T, E>(result: Result<Vec<T>, E>) -> (r: ImmortalResponse<Vec<T>>)
    ensures
        match result {
            Ok(users) => r.code == 200 && r.message@ == "Request success"@ && r.data == Some(users),
            Err(_) => r.code == 500 && r.message@ == "Internal server error caused by "@ + "Failed to load users"@
                && r.data is None,
        },
{
    match result {
        Ok(users) => success(users),
        Err(_) => fail(Immortal::InternalError(String::from_str("Failed to load users"))),
    }
}

} // verus!
