//! The Gerrit endpoint: request assembly for the `/changes/` query, the
//! credentials policy, and the shape of a decoded response.
//!
//! The HTTP transport itself is a collaborator: the caller performs the
//! GET (with the anti-XSSI prefix already stripped from the body) and
//! hands the decoded body back.

use vstd::prelude::*;
use crate::entities::ChangeInfo;
use crate::entities::ChangeInfos;
use crate::error::GGRError;
use crate::query::build_query_string;
use crate::query::build_spec;

verus! {

/// Interface for Gerrit access: each call knows the endpoint path and the
/// query string it is made with.
pub trait GerritAccess {
    /// The endpoint path of the call.
    spec fn spec_path(&self) -> Seq<char>;

    /// The query string of the call.
    spec fn spec_query(&self) -> Seq<char>;

    /// Returns the (path, query) information.
    fn build_url(&self) -> (r: (String, String))
        ensures
            r.0@ == self.spec_path(),
            r.1@ == self.spec_query(),
    ;
}

/// The terms of an optional term list; `None` stands for no terms.
pub open spec fn opt_terms(o: Option<Vec<String>>) -> Seq<Seq<char>> {
    match o {
        Some(v) => v.deep_view(),
        None => Seq::empty(),
    }
}

/// One `&o=<label>` part per requested additional field, in order.
pub open spec fn labels_part(ls: Seq<Seq<char>>) -> Seq<char>
    decreases ls.len(),
{
    if ls.len() == 0 {
        Seq::empty()
    } else {
        labels_part(ls.drop_last()) + "&o="@ + ls.last()
    }
}

/// One query call against the `/changes/` endpoint: filter terms plus
/// additional field labels.
pub struct Changes {
    /// Filter terms, joined into the `q=` parameter.
    pub querylist: Option<Vec<String>>,
    /// Additional fields, one `o=` parameter each.
    pub labellist: Option<Vec<String>>,
}

impl GerritAccess for Changes {
    open spec fn spec_path(&self) -> Seq<char> {
        "/changes/"@
    }

    open spec fn spec_query(&self) -> Seq<char> {
        "pp=0&q="@ + build_spec(opt_terms(self.querylist)) + labels_part(
            opt_terms(self.labellist),
        )
    }

    fn build_url(&self) -> (r: (String, String)) {
        let mut q = String::from_str("pp=0&q=");
        let built = match &self.querylist {
            Some(v) => build_query_string(v),
            None => {
                let no_terms: Vec<String> = Vec::new();
                proof {
                    assert(no_terms.deep_view() =~= opt_terms(self.querylist));
                }
                build_query_string(&no_terms)
            },
        };
        q.append(built.as_str());
        match &self.labellist {
            Some(ls) => {
                let ghost head = q@;
                let ghost lv = ls.deep_view();
                let mut i: usize = 0;
                while i < ls.len()
                    invariant
                        i <= ls.len(),
                        lv == ls.deep_view(),
                        q@ == head + labels_part(lv.take(i as int)),
                    decreases ls.len() - i,
                {
                    q.append("&o=");
                    q.append(ls[i].as_str());
                    proof {
                        assert(lv.take(i + 1).drop_last() =~= lv.take(i as int));
                        assert(lv.take(i + 1).last() == lv[i as int]);
                        assert(q@ =~= head + labels_part(lv.take(i + 1)));
                    }
                    i += 1;
                }
                proof {
                    assert(lv.take(ls.len() as int) =~= lv);
                    assert(q@ =~= self.spec_query());
                }
            },
            None => {
                proof {
                    assert(q@ =~= self.spec_query());
                }
            },
        }
        (String::from_str("/changes/"), q)
    }
}

/// Whether the string parses as an absolute URL.
pub uninterp spec fn url_accepts(s: Seq<char>) -> bool;

/// Relies on `url::Url::parse`: whether a string parses as an absolute URL
/// depends on the string alone; `Ok` maps to `true`.
#[verifier::external_body]
fn url_parse_ok(s: &str) -> (r: bool)
    ensures
        r == url_accepts(s@),
{
    url::Url::parse(s).is_ok()
}

/// Management of one Gerrit endpoint, addressed by its HTTP base URL.
pub struct Gerrit {
    /// The endpoint base URL all calls append their paths to.
    pub url: String,
}

impl Gerrit {
    /// An endpoint for the given base URL, e.g. `http://localhost:8080/gerrit`.
    /// A string that does not parse as an absolute URL is rejected.
    pub fn new(url: &str) -> (r: Result<Gerrit, GGRError>)
        ensures
            r matches Ok(g) ==> url_accepts(url@) && g.url@ == url@,
            r matches Err(e) ==> !url_accepts(url@) && (e matches GGRError::General(m) && m@
                == "invalid gerrit base url"@),
    {
        if url_parse_ok(url) {
            Ok(Gerrit { url: url.to_owned() })
        } else {
            Err(GGRError::General("invalid gerrit base url".to_owned()))
        }
    }

    /// The (path, query) request of a changes query for the given filter
    /// terms and additional field labels.
    pub fn changes_request(
        &self,
        querylist: Option<Vec<String>>,
        additional_infos: Option<Vec<String>>,
    ) -> (r: (String, String))
        ensures
            r.0@ == "/changes/"@,
            r.1@ == "pp=0&q="@ + build_spec(opt_terms(querylist)) + labels_part(
                opt_terms(additional_infos),
            ),
    {
        let c = Changes { querylist, labellist: additional_infos };
        c.build_url()
    }

    /// Credentials are set on the transport only when both username and
    /// password are non-empty; unauthenticated calls are legal.
    pub fn use_credentials(username: &str, password: &str) -> (r: bool)
        ensures
            r == (username@.len() > 0 && password@.len() > 0),
    {
        !username.is_empty() && !password.is_empty()
    }

    /// The collection a query response decodes to: a bodyless response is
    /// the empty collection (no changes is a valid outcome); a body must
    /// have decoded into entities plus the raw payload.
    pub fn changes_from_response(decoded: Option<(Vec<ChangeInfo>, String)>) -> (r: ChangeInfos)
        ensures
            match decoded {
                None => r.entities@ == Seq::<ChangeInfo>::empty() && r.raw@
                    == Seq::<char>::empty(),
                Some(d) => r.entities == d.0 && r.raw == d.1,
            },
    {
        match decoded {
            None => ChangeInfos::empty(),
            Some((entities, raw)) => ChangeInfos::new(entities, raw),
        }
    }
}

} // verus!
