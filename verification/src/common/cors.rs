//! Cross-origin headers that every answer carries.
use vstd::prelude::*;
use vstd::string::StringExecFns;

verus! {

/// Either every value or some listed ones.
pub enum AllOrSome<T> {
    All,
    Listed(T),
}

/// The texts of `items` joined, in order, with `sep` between neighbours.
pub open spec fn joined(items: Seq<Seq<char>>, sep: Seq<char>) -> Seq<char>
    decreases items.len(),
{
    if items.len() == 0 {
        Seq::empty()
    } else if items.len() == 1 {
        items[0]
    } else {
        joined(items.drop_last(), sep) + sep + items.last()
    }
}

/// Joining nothing gives the empty text, and joining one text gives that text.
pub proof fn lemma_joined_few(x: Seq<char>, sep: Seq<char>)
    ensures
        joined(Seq::<Seq<char>>::empty(), sep) == Seq::<char>::empty(),
        joined(seq![x], sep) == x,
{
}

/// Adding a text after at least one other puts exactly one separator between it and the rest.
pub proof fn lemma_joined_push(items: Seq<Seq<char>>, x: Seq<char>, sep: Seq<char>)
    requires
        items.len() >= 1,
    ensures
        joined(items.push(x), sep) == joined(items, sep) + sep + x,
{
    assert(items.push(x).drop_last() =~= items);
}

/// Joining two non-empty runs of texts one after the other is joining each and putting one
/// separator between them.
pub proof fn lemma_joined_concat(a: Seq<Seq<char>>, b: Seq<Seq<char>>, sep: Seq<char>)
    requires
        a.len() >= 1,
        b.len() >= 1,
    ensures
        joined(a + b, sep) == joined(a, sep) + sep + joined(b, sep),
    decreases b.len(),
{
    if b.len() == 1 {
        assert(a + b =~= a.push(b[0]));
        lemma_joined_push(a, b[0], sep);
    } else {
        let rest = b.drop_last();
        lemma_joined_concat(a, rest, sep);
        assert(a + b =~= (a + rest).push(b.last()));
        lemma_joined_push(a + rest, b.last(), sep);
        assert(b =~= rest.push(b.last()));
        lemma_joined_push(rest, b.last(), sep);
        assert(joined(a + b, sep) =~= joined(a, sep) + sep + joined(b, sep));
    }
}

/// Joined texts hold, besides the texts themselves, one separator for each pair of neighbours.
pub proof fn lemma_joined_len(items: Seq<Seq<char>>, sep: Seq<char>)
    requires
        items.len() >= 1,
    ensures
        joined(items, sep).len() == total_len(items) + (items.len() - 1) * sep.len(),
    decreases items.len(),
{
    if items.len() > 1 {
        lemma_joined_len(items.drop_last(), sep);
        assert(items.len() - 1 - 1 == items.drop_last().len() - 1);
        assert((items.len() - 1) * sep.len() == (items.drop_last().len() - 1) * sep.len() + sep.len()) by (nonlinear_arith)
            requires items.len() - 1 == items.drop_last().len();
    } else {
        assert(total_len(items.drop_last()) == 0);
    }
}

/// The total length of `items`.
pub open spec fn total_len(items: Seq<Seq<char>>) -> int
    decreases items.len(),
{
    if items.len() == 0 { 0 } else { total_len(items.drop_last()) + items.last().len() }
}

/// The texts of a vector of strings.
pub open spec fn texts(items: Seq<String>) -> Seq<Seq<char>> {
    items.map_values(|s: String| s@)
}

/// Joins `items` with commas.
pub fn join_with_commas(items: &Vec<String>) -> (s: String)
    ensures
        s@ == joined(texts(items@), ","@),
{
    proof { reveal_strlit(","); }
    let mut s = String::new();
    let mut i: usize = 0;
    while i < items.len()
        invariant
            i <= items@.len(),
            s@ == joined(texts(items@).take(i as int), ","@),
        decreases items@.len() - i,
    {
        if i > 0 {
            s.append(",");
        }
        s.append(items[i].as_str());
        assert(texts(items@).take(i + 1).drop_last() =~= texts(items@).take(i as int));
        i = i + 1;
    }
    assert(texts(items@).take(items@.len() as int) =~= texts(items@));
    s
}

/// The origins an answer admits: `*` for every origin, else the listed ones joined with commas.
pub open spec fn allow_origin_value(origins: AllOrSome<Vec<String>>) -> Seq<char> {
    match origins {
        AllOrSome::All => "*"@,
        AllOrSome::Listed(list) => joined(texts(list@), ","@),
    }
}

/// The methods that answers admit.
pub const ALLOW_METHODS: &'static str = "POST,GET,OPTIONS,PUT,DELETE";

/// The request headers that answers admit.
pub const ALLOW_HEADERS: &'static str = "Content-Type,Accept,Authorization";

/// How an answer is made: whether a pre-flight request is answered at once with 200, and the
/// values of the three cross-origin headers set on the answer.
pub struct CorsPlan {
    pub answer_directly: bool,
    pub allow_origin: String,
    pub allow_methods: String,
    pub allow_headers: String,
}

/// The origins that the cross-origin middleware admits.
pub struct Cors {
    pub allowed_origins: AllOrSome<Vec<String>>,
}

impl Default for Cors {
    /// Admits every origin.
    fn default() -> (c: Self)
        ensures
            c.allowed_origins is All,
    {
        Cors { allowed_origins: AllOrSome::All }
    }
}

impl Cors {
    /// Admits the listed origins.
    pub fn new(allowed_origins: Vec<String>) -> (c: Self)
        ensures
            c.allowed_origins == AllOrSome::Listed(allowed_origins),
    {
        Cors { allowed_origins: AllOrSome::Listed(allowed_origins) }
    }

    /// Puts the middleware in front of `service`.
    pub fn new_transform<S>(&self, service: S) -> (m: CorsMiddleware<S>)
        ensures
            m.service == service,
            match (self.allowed_origins, m.allowed_origins) {
                (AllOrSome::All, AllOrSome::All) => true,
                (AllOrSome::Listed(mine), AllOrSome::Listed(theirs)) => theirs@ == mine@,
                _ => false,
            },
    {
        let allowed_origins = match &self.allowed_origins {
            AllOrSome::All => AllOrSome::All,
            AllOrSome::Listed(list) => {
                let copy = list.clone();
                proof {
                    assert forall|i: int| 0 <= i < list@.len() implies copy@[i] == list@[i] by {
                        assert(vstd::pervasive::cloned::<String>(list@[i], copy@[i]));
                    }
                    assert(copy@ =~= list@);
                }
                AllOrSome::Listed(copy)
            },
        };
        CorsMiddleware { service, allowed_origins }
    }
}

/// The cross-origin middleware in front of a service.
pub struct CorsMiddleware<S> {
    pub service: S,
    pub allowed_origins: AllOrSome<Vec<String>>,
}

impl<S> CorsMiddleware<S> {
    /// How a request with `method` is answered: an `OPTIONS` request at once with 200, any other
    /// by the service; either answer then carries the cross-origin headers.
    pub fn call(&self, method: &str) -> (plan: CorsPlan)
        ensures
            plan.answer_directly == (method@ == "OPTIONS"@),
            plan.allow_origin@ == allow_origin_value(self.allowed_origins),
            plan.allow_methods@ == ALLOW_METHODS@,
            plan.allow_headers@ == ALLOW_HEADERS@,
    {
        let answer_directly = String::from_str(method) == String::from_str("OPTIONS");
        let allow_origin = match &self.allowed_origins {
            AllOrSome::All => String::from_str("*"),
            AllOrSome::Listed(origins) => join_with_commas(origins),
        };
        CorsPlan {
            answer_directly,
            allow_origin,
            allow_methods: String::from_str(ALLOW_METHODS),
            allow_headers: String::from_str(ALLOW_HEADERS),
        }
    }
}

} // verus!
