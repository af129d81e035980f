//! The token check and the cross-origin headers of the account services.
use vstd::prelude::*;
use vstd::string::{StrSliceExecFns, StringExecFns};

use crate::common::cors::{joined, AllOrSome, CorsPlan};
use crate::common::structs::ErrorReply;
use crate::commons::claims::Claims;
use crate::commons::immortal_error::{error_reply, ImmortalError};
use crate::commons::utils::{claims_outcome, claims_view, jwt_decode, key_bytes};
use crate::token::{current_timestamp, hs256_claim_members};

verus! {

/// The middleware that turns away requests without a valid token.
pub struct Auth;

/// What the middleware does with a request: let it through, answer it at once, or look up the
/// privileges of the user whose token it carries.
pub enum AuthStart {
    Done,
    Response(ErrorReply),
    CheckPrivileges(Claims),
}

/// Whether `s` is what the middleware does for a token whose reading gives `outcome`: the
/// error's answer, or the privileges look-up for the claims read.
pub open spec fn follows_token_outcome(s: AuthStart, outcome: Result<(Seq<char>, i32, i64), ImmortalError>) -> bool {
    match outcome {
        Ok(t) => s matches AuthStart::CheckPrivileges(c) && claims_view(c) == t,
        Err(e) => s == AuthStart::Response(error_reply(e)),
    }
}

impl Auth {
    /// Lets the login request through; answers a request without an `Authorization` header
    /// with 401 "There isn't a token"; reads the token of any other request (the text after the
    /// seven-character scheme) and answers with the reading's error, or goes on to look up the
    /// privileges of the user it names.
    pub fn start(&self, path: &str, authorization: Option<&str>) -> (s: AuthStart)
        requires
            authorization matches Some(h) ==> h.is_ascii() && h@.len() >= 7,
        ensures
            path@ == "/api/login"@ ==> s is Done,
            path@ != "/api/login"@ && authorization is None ==>
                s == AuthStart::Response(ErrorReply { status: 401, reason: Some("There isn't a token") }),
            path@ != "/api/login"@ ==> (authorization matches Some(h) ==> exists|now: u64| call_ensures(current_timestamp, (), now) && follows_token_outcome(s,
                #[trigger] claims_outcome(hs256_claim_members(h@.subrange(7, h@.len() as int), key_bytes()), now as int))),
    {
        if String::from_str(path) == String::from_str("/api/login") {
            return AuthStart::Done;
        }
        match authorization {
            Some(header) => {
                let token = String::from_str(header.substring_ascii(7, header.unicode_len()));
                match jwt_decode(token) {
                    Ok(claims) => AuthStart::CheckPrivileges(claims),
                    Err(err) => AuthStart::Response(err.error_response()),
                }
            },
            None => AuthStart::Response(ErrorReply { status: 401, reason: Some("There isn't a token") }),
        }
    }
}

/// The methods that answers admit.
pub const ALLOW_METHODS: &'static str = "POST,GET,OPTIONS,DELETE";

/// The request headers that answers admit.
pub const ALLOW_HEADERS: &'static str = "Content-Type,Accept,Authorization";

/// The texts of a vector of string slices.
pub open spec fn str_texts(items: Seq<&'static str>) -> Seq<Seq<char>> {
    items.map_values(|s: &'static str| s@)
}

/// The origins an answer admits: `*` for every origin, else the listed ones joined with commas.
pub open spec fn allow_origin_value(origins: AllOrSome<Vec<&'static str>>) -> Seq<char> {
    match origins {
        AllOrSome::All => "*"@,
        AllOrSome::Listed(list) => joined(str_texts(list@), ","@),
    }
}

/// Joins `items` with commas.
fn join_with_commas(items: &Vec<&'static str>) -> (s: String)
    ensures
        s@ == joined(str_texts(items@), ","@),
{
    proof { reveal_strlit(","); }
    let mut s = String::new();
    let mut i: usize = 0;
    while i < items.len()
        invariant
            i <= items@.len(),
            s@ == joined(str_texts(items@).take(i as int), ","@),
        decreases items@.len() - i,
    {
        if i > 0 {
            s.append(",");
        }
        s.append(items[i]);
        assert(str_texts(items@).take(i + 1).drop_last() =~= str_texts(items@).take(i as int));
        i = i + 1;
    }
    assert(str_texts(items@).take(items@.len() as int) =~= str_texts(items@));
    s
}

/// The cross-origin middleware: the origins it admits.
pub struct Cors {
    pub allowed_origins: AllOrSome<Vec<&'static str>>,
}

impl Default for Cors {
    /// Admits every origin.
    fn default() -> (c: Self)
        ensures
            c.allowed_origins is All,
    {
        Cors { allowed_origins: AllOrSome::All }
    }
}

impl Cors {
    /// Admits the listed origins.
    pub fn new(allowed_origins: Vec<&'static str>) -> (c: Self)
        ensures
            c.allowed_origins == AllOrSome::Listed(allowed_origins),
    {
        Cors { allowed_origins: AllOrSome::Listed(allowed_origins) }
    }

    /// How the answer to a request with `method` is finished: an `OPTIONS` request's answer is
    /// replaced by an empty 200; every answer carries the cross-origin headers.
    pub fn response(&self, method: &str) -> (plan: CorsPlan)
        ensures
            plan.answer_directly == (method@ == "OPTIONS"@),
            plan.allow_origin@ == allow_origin_value(self.allowed_origins),
            plan.allow_methods@ == ALLOW_METHODS@,
            plan.allow_headers@ == ALLOW_HEADERS@,
    {
        let answer_directly = String::from_str(method) == String::from_str("OPTIONS");
        let allow_origin = match &self.allowed_origins {
            AllOrSome::All => String::from_str("*"),
            AllOrSome::Listed(origins) => join_with_commas(origins),
        };
        CorsPlan {
            answer_directly,
            allow_origin,
            allow_methods: String::from_str(ALLOW_METHODS),
            allow_headers: String::from_str(ALLOW_HEADERS),
        }
    }
}

} // verus!
