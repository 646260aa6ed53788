//! Building the query-string fragment sent to the Gerrit search endpoint.
//!
//! A query is an ordered list of raw search terms (each nominally of the
//! form `field:value`, passed through unvalidated).  Serialized, the terms
//! are joined with `+`; one trailing `+` (as left by an empty last term) is
//! stripped from the result.

use vstd::prelude::*;

verus! {

/// The terms joined with a single `+` between consecutive terms.
pub open spec fn join_terms(ts: Seq<Seq<char>>) -> Seq<char>
    decreases ts.len(),
{
    if ts.len() == 0 {
        Seq::empty()
    } else if ts.len() == 1 {
        ts[0]
    } else {
        join_terms(ts.drop_last()) + seq!['+'] + ts.last()
    }
}

/// What `build` returns: the joined terms, with exactly one trailing `+`
/// stripped if the join ends in one.
pub open spec fn build_spec(ts: Seq<Seq<char>>) -> Seq<char> {
    let j = join_terms(ts);
    if j.len() > 0 && j.last() == '+' {
        j.drop_last()
    } else {
        j
    }
}

/// An ordered list of raw search terms for the Gerrit query endpoint.
#[derive(Clone)]
pub struct Query {
    pub query: Vec<String>,
}

impl View for Query {
    type V = Seq<Seq<char>>;

    open spec fn view(&self) -> Seq<Seq<char>> {
        self.query.deep_view()
    }
}

impl Query {
    /// An empty query.
    pub fn new() -> (q: Query)
        ensures
            q@ == Seq::<Seq<char>>::empty(),
    {
        Query { query: Vec::new() }
    }

    /// Appends one raw term.  Terms are kept verbatim; malformed terms such
    /// as `x=y` are passed through rather than repaired.
    pub fn add_str(&mut self, x: String)
        ensures
            final(self)@ == old(self)@.push(x@),
    {
        self.query.push(x);
    }

    /// The terms as entered, in order.
    pub fn get_query(&self) -> (r: &Vec<String>)
        ensures
            r.deep_view() == self@,
    {
        &self.query
    }

    /// Serializes the query: terms joined with `+`, one trailing `+`
    /// stripped.  An empty query serializes to the empty string.
    pub fn build(&self) -> (r: String)
        ensures
            r@ == build_spec(self@),
    {
        build_query_string(&self.query)
    }
}

impl From<Vec<String>> for Query {
    /// A query holding exactly the given terms, in order.
    fn from(v: Vec<String>) -> (q: Query) {
        Query { query: v }
    }
}

impl vstd::std_specs::convert::FromSpecImpl<Vec<String>> for Query {
    open spec fn obeys_from_spec() -> bool {
        true
    }

    open spec fn from_spec(v: Vec<String>) -> Query {
        Query { query: v }
    }
}

/// Joins the terms with `+` and strips one trailing `+` if present.
pub fn build_query_string(querylist: &Vec<String>) -> (r: String)
    ensures
        r@ == build_spec(querylist.deep_view()),
{
    let ghost ts: Seq<Seq<char>> = querylist.deep_view();
    let mut joined = String::new();
    let mut i: usize = 0;
    while i < querylist.len()
        invariant
            i <= querylist.len(),
            ts == querylist.deep_view(),
            joined@ == join_terms(ts.take(i as int)),
        decreases querylist.len() - i,
    {
        proof {
            reveal_strlit("+");
        }
        if i > 0 {
            joined.append("+");
        }
        joined.append(querylist[i].as_str());
        proof {
            assert(ts.take(i + 1).drop_last() =~= ts.take(i as int));
            assert(ts.take(i + 1).last() == ts[i as int]);
            if i == 0 {
                assert(joined@ =~= join_terms(ts.take(1)));
            }
        }
        i += 1;
    }
    proof {
        assert(ts.take(querylist.len() as int) =~= ts);
    }
    let n = joined.as_str().unicode_len();
    if n > 0 && joined.as_str().get_char(n - 1) == '+' {
        let stripped = joined.as_str().substring_char(0, n - 1).to_owned();
        proof {
            assert(stripped@ =~= joined@.drop_last());
        }
        stripped
    } else {
        joined
    }
}

/// The serialized query never ends in the `+` separator, provided no term
/// is empty and no term itself ends in `+`; and an empty term list always
/// serializes to the empty string.
pub proof fn lemma_build_no_trailing_separator(ts: Seq<Seq<char>>)
    requires
        forall|i: int|
            0 <= i < ts.len() ==> ts[i].len() > 0 && (#[trigger] ts[i]).last() != '+',
    ensures
        ts.len() == 0 ==> build_spec(ts) == Seq::<char>::empty(),
        build_spec(ts).len() > 0 ==> build_spec(ts).last() != '+',
    decreases ts.len(),
{
    if ts.len() == 0 {
    } else if ts.len() == 1 {
        assert(join_terms(ts) == ts[0]);
    } else {
        assert(join_terms(ts).last() == ts.last().last());
    }
}

} // verus!
