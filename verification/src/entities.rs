//! Typed model of the change / revision / fetch-info graph returned by the
//! Gerrit query endpoint, with the derived views the orchestrators need:
//! the tip commit per project and lookup of a change by commit hash.
//!
//! Mappings (revisions by commit hash, fetch info by protocol) are held as
//! ordered key-value lists with unique keys; insertion order carries no
//! meaning for them.

use vstd::prelude::*;
use crate::error::GGRError;

verus! {

/// How to fetch one revision under one protocol.
pub struct FetchInfo {
    /// Fetchable remote URL for the revision.
    pub url: String,
    /// Ref to fetch, e.g. `refs/changes/34/1234/1`.
    pub reference: String,
}

/// One revision (commit) of a change.
pub struct RevisionInfo {
    /// Fetch info per protocol name (e.g. `"http"`); keys unique.
    pub fetch: Vec<(String, FetchInfo)>,
}

/// One change as returned by Gerrit.
pub struct ChangeInfo {
    /// Gerrit project (repository) name.
    pub project: String,
    /// Topic the change belongs to, if any.
    pub topic: Option<String>,
    /// Change status (`NEW`, `MERGED`, ...), treated opaquely.
    pub status: String,
    /// Commit hash keying into `revisions`, if known.
    pub current_revision: Option<String>,
    /// Revisions by commit hash; keys unique.
    pub revisions: Option<Vec<(String, RevisionInfo)>>,
}

/// The decoded changes of one query response, in response order
/// (newest first), together with the raw response body for verbatim
/// field display.
pub struct ChangeInfos {
    /// Decoded changes, in response order.
    pub entities: Vec<ChangeInfo>,
    /// Raw JSON payload the entities were decoded from.
    pub raw: String,
}

/// Index of the first entry with key `k` in a key-value list, `-1` if none.
pub open spec fn key_index<T>(s: Seq<(String, T)>, k: Seq<char>) -> int
    decreases s.len(),
{
    if s.len() == 0 {
        -1
    } else if s[0].0@ == k {
        0
    } else {
        let r = key_index(s.drop_first(), k);
        if r < 0 {
            -1
        } else {
            r + 1
        }
    }
}

pub proof fn lemma_key_index_props<T>(s: Seq<(String, T)>, k: Seq<char>)
    ensures
        -1 <= key_index(s, k) < s.len(),
        key_index(s, k) >= 0 ==> s[key_index(s, k)].0@ == k,
        key_index(s, k) == -1 ==> forall|j: int| 0 <= j < s.len() ==> s[j].0@ != k,
    decreases s.len(),
{
    if s.len() > 0 && s[0].0@ != k {
        lemma_key_index_props(s.drop_first(), k);
        assert forall|j: int| 1 <= j < s.len() implies s[j] == s.drop_first()[j - 1] by {}
    }
}

proof fn lemma_key_index_at<T>(s: Seq<(String, T)>, k: Seq<char>, i: int)
    requires
        0 <= i < s.len(),
        s[i].0@ == k,
        forall|j: int| 0 <= j < i ==> s[j].0@ != k,
    ensures
        key_index(s, k) == i,
    decreases s.len(),
{
    if i > 0 {
        assert forall|j: int| 0 <= j < i - 1 implies s.drop_first()[j].0@ != k by {
            assert(s.drop_first()[j] == s[j + 1]);
        }
        assert(s.drop_first()[i - 1] == s[i]);
        lemma_key_index_at(s.drop_first(), k, i - 1);
    }
}

/// First entry with key `k`, by reference, or `None` if no entry has it.
pub fn find_key<'a, T>(v: &'a Vec<(String, T)>, k: &str) -> (r: Option<&'a T>)
    ensures
        match r {
            Some(t) => key_index(v@, k@) >= 0 && *t == v@[key_index(v@, k@)].1,
            None => key_index(v@, k@) == -1,
        },
{
    let key_s = k.to_owned();
    let mut i: usize = 0;
    while i < v.len()
        invariant
            i <= v.len(),
            key_s@ == k@,
            forall|j: int| 0 <= j < i ==> v@[j].0@ != k@,
        decreases v.len() - i,
    {
        if v[i].0 == key_s {
            proof {
                lemma_key_index_at(v@, k@, i as int);
            }
            return Some(&v[i].1);
        }
        i += 1;
    }
    proof {
        lemma_key_index_props(v@, k@);
    }
    None
}

/// Whether the change's `current_revision` is `h`.
pub open spec fn has_commit(c: ChangeInfo, h: Seq<char>) -> bool {
    match c.current_revision {
        Some(r) => r@ == h,
        None => false,
    }
}

/// Index of the first change whose `current_revision` is `h`, `-1` if none.
pub open spec fn commit_index(s: Seq<ChangeInfo>, h: Seq<char>) -> int
    decreases s.len(),
{
    if s.len() == 0 {
        -1
    } else if has_commit(s[0], h) {
        0
    } else {
        let r = commit_index(s.drop_first(), h);
        if r < 0 {
            -1
        } else {
            r + 1
        }
    }
}

pub proof fn lemma_commit_index_props(s: Seq<ChangeInfo>, h: Seq<char>)
    ensures
        -1 <= commit_index(s, h) < s.len(),
        commit_index(s, h) >= 0 ==> has_commit(s[commit_index(s, h)], h) && forall|j: int|
            0 <= j < commit_index(s, h) ==> !has_commit(s[j], h),
        commit_index(s, h) == -1 ==> forall|j: int| 0 <= j < s.len() ==> !has_commit(s[j], h),
    decreases s.len(),
{
    if s.len() > 0 && !has_commit(s[0], h) {
        lemma_commit_index_props(s.drop_first(), h);
        assert forall|j: int| 1 <= j < s.len() implies s[j] == s.drop_first()[j - 1] by {}
    }
}

proof fn lemma_commit_index_at(s: Seq<ChangeInfo>, h: Seq<char>, i: int)
    requires
        0 <= i < s.len(),
        has_commit(s[i], h),
        forall|j: int| 0 <= j < i ==> !has_commit(s[j], h),
    ensures
        commit_index(s, h) == i,
    decreases s.len(),
{
    if i > 0 {
        assert forall|j: int| 0 <= j < i - 1 implies !has_commit(s.drop_first()[j], h) by {
            assert(s.drop_first()[j] == s[j + 1]);
        }
        assert(s.drop_first()[i - 1] == s[i]);
        lemma_commit_index_at(s.drop_first(), h, i - 1);
    }
}

/// Tip commit of a change: its `current_revision`, or the empty string when
/// the change carries none.
pub open spec fn tip_value(c: ChangeInfo) -> Seq<char> {
    match c.current_revision {
        Some(r) => r@,
        None => Seq::empty(),
    }
}

/// Whether the tip list already carries project `p`.
pub open spec fn has_project(m: Seq<(Seq<char>, Seq<char>)>, p: Seq<char>) -> bool {
    exists|i: int| 0 <= i < m.len() && m[i].0 == p
}

/// Per-project tips of a change list: one `(project, tip)` pair per project,
/// in order of first occurrence; the first (newest) change for a project
/// supplies its tip.
pub open spec fn tips_of(s: Seq<ChangeInfo>) -> Seq<(Seq<char>, Seq<char>)>
    decreases s.len(),
{
    if s.len() == 0 {
        Seq::empty()
    } else {
        let prev = tips_of(s.drop_last());
        if has_project(prev, s.last().project@) {
            prev
        } else {
            prev.push((s.last().project@, tip_value(s.last())))
        }
    }
}

/// Every project in the tip list is the project of some change.
proof fn lemma_tips_keys_from_projects(s: Seq<ChangeInfo>, p: Seq<char>)
    requires
        has_project(tips_of(s), p),
    ensures
        exists|j: int| 0 <= j < s.len() && s[j].project@ == p,
    decreases s.len(),
{
    if s.len() > 0 {
        let prev = tips_of(s.drop_last());
        if has_project(prev, s.last().project@) {
            lemma_tips_keys_from_projects(s.drop_last(), p);
            let j = choose|j: int| 0 <= j < s.drop_last().len() && s.drop_last()[j].project@ == p;
            assert(s[j].project@ == p);
        } else {
            if p == s.last().project@ {
                assert(s[s.len() - 1].project@ == p);
            } else {
                let i = choose|i: int| 0 <= i < tips_of(s).len() && tips_of(s)[i].0 == p;
                assert(0 <= i < prev.len() && prev[i].0 == p);
                lemma_tips_keys_from_projects(s.drop_last(), p);
                let j = choose|j: int|
                    0 <= j < s.drop_last().len() && s.drop_last()[j].project@ == p;
                assert(s[j].project@ == p);
            }
        }
    }
}

/// No project appears twice in the tip list.
pub proof fn lemma_tips_keys_unique(s: Seq<ChangeInfo>)
    ensures
        forall|a: int, b: int|
            0 <= a < b < tips_of(s).len() ==> tips_of(s)[a].0 != tips_of(s)[b].0,
    decreases s.len(),
{
    if s.len() > 0 {
        lemma_tips_keys_unique(s.drop_last());
        let prev = tips_of(s.drop_last());
        if !has_project(prev, s.last().project@) {
            assert forall|a: int, b: int|
                0 <= a < b < tips_of(s).len() implies tips_of(s)[a].0 != tips_of(s)[b].0 by {
                if b < prev.len() {
                } else {
                    assert(tips_of(s)[a].0 == prev[a].0);
                    assert(!(prev[a].0 == s.last().project@));
                }
            }
        }
    }
}

/// First-wins law: the tip list carries, for the project of the first
/// change seen for it, exactly that change's tip.  Together with
/// `lemma_tips_keys_unique` this pins the tip of every project to the
/// newest (first listed) change for it.
pub proof fn lemma_project_tip_first_wins(s: Seq<ChangeInfo>, i: int)
    requires
        0 <= i < s.len(),
        forall|j: int| 0 <= j < i ==> s[j].project@ != s[i].project@,
    ensures
        tips_of(s).contains((s[i].project@, tip_value(s[i]))),
    decreases s.len(),
{
    let p = s[i].project@;
    let prev = tips_of(s.drop_last());
    if i == s.len() - 1 {
        if has_project(prev, p) {
            lemma_tips_keys_from_projects(s.drop_last(), p);
            let j = choose|j: int| 0 <= j < s.drop_last().len() && s.drop_last()[j].project@ == p;
            assert(s[j].project@ == p);
            assert(false);
        } else {
            let m = tips_of(s);
            assert(m[m.len() - 1] == (p, tip_value(s[i])));
        }
    } else {
        assert(s.drop_last()[i] == s[i]);
        assert forall|j: int| 0 <= j < i implies s.drop_last()[j].project@ != s.drop_last()[i].project@ by {
            assert(s.drop_last()[j] == s[j]);
        }
        lemma_project_tip_first_wins(s.drop_last(), i);
        let k = choose|k: int| 0 <= k < prev.len() && prev[k] == (p, tip_value(s[i]));
        assert(tips_of(s)[k] == (p, tip_value(s[i])));
    }
}

impl ChangeInfos {
    /// A collection holding the given decoded changes and the raw payload
    /// they came from.
    pub fn new(entities: Vec<ChangeInfo>, raw: String) -> (r: ChangeInfos)
        ensures
            r.entities == entities,
            r.raw == raw,
    {
        ChangeInfos { entities, raw }
    }

    /// The empty collection, as a bodyless response decodes to.
    pub fn empty() -> (r: ChangeInfos)
        ensures
            r.entities@ == Seq::<ChangeInfo>::empty(),
            r.raw@ == Seq::<char>::empty(),
    {
        ChangeInfos { entities: Vec::new(), raw: String::new() }
    }

    /// Tip commit per project: for each project, the `current_revision` of
    /// the first (newest) change listed for it.  `None` when the collection
    /// is empty.
    pub fn project_tip(&self) -> (r: Option<Vec<(String, String)>>)
        ensures
            match r {
                Some(v) => self.entities@.len() > 0 && v.deep_view() == tips_of(self.entities@),
                None => self.entities@.len() == 0,
            },
    {
        if self.entities.len() == 0 {
            return None;
        }
        let ghost s = self.entities@;
        let mut acc: Vec<(String, String)> = Vec::new();
        let mut i: usize = 0;
        while i < self.entities.len()
            invariant
                i <= self.entities.len(),
                s == self.entities@,
                acc.deep_view() == tips_of(s.take(i as int)),
            decreases self.entities.len() - i,
        {
            let entity = &self.entities[i];
            proof {
                assert(s.take(i + 1).drop_last() =~= s.take(i as int));
                assert(s.take(i + 1).last() == s[i as int]);
            }
            let present = find_key(&acc, entity.project.as_str());
            proof {
                lemma_key_index_props(acc@, entity.project@);
                let m = acc.deep_view();
                assert forall|j: int| 0 <= j < acc@.len() implies m[j].0 == acc@[j].0@ by {}
                if key_index(acc@, entity.project@) >= 0 {
                    let k = key_index(acc@, entity.project@);
                    assert(m[k].0 == entity.project@);
                    assert(has_project(m, s[i as int].project@));
                } else {
                    assert forall|j: int| 0 <= j < m.len() implies m[j].0 != s[i as int].project@ by {}
                }
            }
            match present {
                Some(_) => {},
                None => {
                    let tip = match &entity.current_revision {
                        Some(r) => r.clone(),
                        None => String::new(),
                    };
                    let p = entity.project.clone();
                    acc.push((p, tip));
                    proof {
                        assert(acc.deep_view() =~= tips_of(s.take(i + 1)));
                    }
                },
            }
            i += 1;
        }
        proof {
            assert(s.take(s.len() as int) =~= s);
        }
        Some(acc)
    }

    /// The first change whose `current_revision` equals `commit`, or an
    /// error (never a crash) when no change carries that hash.
    pub fn entity_from_commit<'a>(&'a self, commit: &str) -> (r: Result<&'a ChangeInfo, GGRError>)
        ensures
            match r {
                Ok(c) => commit_index(self.entities@, commit@) >= 0 && *c == self.entities@[commit_index(
                    self.entities@,
                    commit@,
                )],
                Err(e) => commit_index(self.entities@, commit@) == -1 && (e matches GGRError::General(m)
                    && m@ == "no entity from commit"@),
            },
    {
        let mut i: usize = 0;
        while i < self.entities.len()
            invariant
                i <= self.entities.len(),
                forall|j: int| 0 <= j < i ==> !has_commit(self.entities@[j], commit@),
            decreases self.entities.len() - i,
        {
            let matched = match &self.entities[i].current_revision {
                Some(r) => {
                    let c = commit.to_owned();
                    *r == c
                },
                None => false,
            };
            if matched {
                proof {
                    lemma_commit_index_at(self.entities@, commit@, i as int);
                }
                return Ok(&self.entities[i]);
            }
            i += 1;
        }
        proof {
            lemma_commit_index_props(self.entities@, commit@);
        }
        Err(GGRError::General("no entity from commit".to_owned()))
    }
}

} // verus!
