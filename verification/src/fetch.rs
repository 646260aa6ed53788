//! Decisions of the topic fetch orchestrator.
//!
//! Fetching a topic visits the superproject and every sub-repository.  For
//! one repository the decision is: reject bare repositories; find the first
//! remote whose URL resolves to the wanted project name; resolve the fetch
//! ref out of the change data; honour the branch-exists guard; and
//! otherwise name the fetch command to run.  Running the command, like all
//! version-control work, is the caller's job; this module only decides.

use vstd::prelude::*;
use crate::entities::ChangeInfos;
use crate::entities::commit_index;
use crate::entities::key_index;
use crate::entities::find_key;
use crate::matcher::matches_project;
use crate::matcher::url_matches_project;

verus! {

/// One configured remote of a repository.
pub struct RemoteInfo {
    /// Remote name (e.g. `origin`).
    pub name: String,
    /// Remote URL, from which the project name is derived.
    pub url: String,
}

/// What the orchestrator knows of one repository when it decides.
pub struct RepoState {
    /// Whether the repository is bare (has no working tree).
    pub is_bare: bool,
    /// The configured remotes, in enumeration order.
    pub remotes: Vec<RemoteInfo>,
    /// Whether the wanted local branch name already exists here.
    pub branch_exists: bool,
}

/// Index of the first remote whose URL resolves to project `p` (bare or
/// `.git`-suffixed), `-1` if none does.
pub open spec fn first_matching_remote(remotes: Seq<RemoteInfo>, p: Seq<char>) -> int
    decreases remotes.len(),
{
    if remotes.len() == 0 {
        -1
    } else if matches_project(remotes[0].url@, p) {
        0
    } else {
        let r = first_matching_remote(remotes.drop_first(), p);
        if r < 0 {
            -1
        } else {
            r + 1
        }
    }
}

pub proof fn lemma_first_matching_remote_props(remotes: Seq<RemoteInfo>, p: Seq<char>)
    ensures
        -1 <= first_matching_remote(remotes, p) < remotes.len(),
        first_matching_remote(remotes, p) >= 0 ==> matches_project(
            remotes[first_matching_remote(remotes, p)].url@,
            p,
        ),
        first_matching_remote(remotes, p) == -1 ==> forall|j: int|
            0 <= j < remotes.len() ==> !matches_project(remotes[j].url@, p),
    decreases remotes.len(),
{
    if remotes.len() > 0 && !matches_project(remotes[0].url@, p) {
        lemma_first_matching_remote_props(remotes.drop_first(), p);
        assert forall|j: int| 1 <= j < remotes.len() implies remotes[j]
            == remotes.drop_first()[j - 1] by {}
    }
}

proof fn lemma_first_matching_remote_at(remotes: Seq<RemoteInfo>, p: Seq<char>, i: int)
    requires
        0 <= i < remotes.len(),
        matches_project(remotes[i].url@, p),
        forall|j: int| 0 <= j < i ==> !matches_project(remotes[j].url@, p),
    ensures
        first_matching_remote(remotes, p) == i,
    decreases remotes.len(),
{
    if i > 0 {
        assert forall|j: int| 0 <= j < i - 1 implies !matches_project(
            remotes.drop_first()[j].url@,
            p,
        ) by {
            assert(remotes.drop_first()[j] == remotes[j + 1]);
        }
        assert(remotes.drop_first()[i - 1] == remotes[i]);
        lemma_first_matching_remote_at(remotes.drop_first(), p, i - 1);
    }
}

/// Index of the first remote whose URL resolves to `p_name`, or `None`.
pub fn find_matching_remote(remotes: &Vec<RemoteInfo>, p_name: &str) -> (r: Option<usize>)
    ensures
        match r {
            Some(i) => first_matching_remote(remotes@, p_name@) == i,
            None => first_matching_remote(remotes@, p_name@) == -1,
        },
{
    let mut i: usize = 0;
    while i < remotes.len()
        invariant
            i <= remotes.len(),
            forall|j: int| 0 <= j < i ==> !matches_project(remotes@[j].url@, p_name@),
        decreases remotes.len() - i,
    {
        if url_matches_project(remotes[i].url.as_str(), p_name) {
            proof {
                lemma_first_matching_remote_at(remotes@, p_name@, i as int);
            }
            return Some(i);
        }
        i += 1;
    }
    proof {
        lemma_first_matching_remote_props(remotes@, p_name@);
    }
    None
}

/// The refspec handed to the fetch command: `+` when forcing, then the
/// remote ref, `:`, and the local branch name.
pub open spec fn refspec_spec(force: bool, reference: Seq<char>, branch: Seq<char>) -> Seq<char> {
    (if force {
        seq!['+']
    } else {
        Seq::<char>::empty()
    }) + reference + seq![':'] + branch
}

/// Builds the refspec `<force ? "+" : "">reference:local_branch_name`.
pub fn build_refspec(force: bool, reference: &str, local_branch_name: &str) -> (r: String)
    ensures
        r@ == refspec_spec(force, reference@, local_branch_name@),
{
    let mut s = String::new();
    if force {
        s.append("+");
    }
    s.append(reference);
    s.append(":");
    s.append(local_branch_name);
    proof {
        reveal_strlit("+");
        reveal_strlit(":");
        assert(s@ =~= refspec_spec(force, reference@, local_branch_name@));
    }
    s
}

/// Outcome of resolving a fetch ref for a tip commit out of the change
/// data: either the ref to fetch, or which piece of the entity graph was
/// missing.
pub enum Resolution {
    /// No change has the tip as its `current_revision`.
    NoEntity,
    /// The resolved change carries no `current_revision`.
    NoCurrentRevision,
    /// The resolved change carries no `revisions` map.
    NoRevisions,
    /// The `current_revision` hash is missing from the `revisions` map.
    NoRevisionEntry,
    /// The revision has no fetch info under the `http` protocol.
    NoHttpFetch,
    /// The ref to fetch.
    Found { reference: Seq<char> },
}

/// Resolves the `http` fetch ref for the change whose `current_revision`
/// is `p_tip`.
pub open spec fn resolve_reference(ci: ChangeInfos, p_tip: Seq<char>) -> Resolution {
    let s = ci.entities@;
    if commit_index(s, p_tip) < 0 {
        Resolution::NoEntity
    } else {
        let c = s[commit_index(s, p_tip)];
        match c.current_revision {
            None => Resolution::NoCurrentRevision,
            Some(cur) => match c.revisions {
                None => Resolution::NoRevisions,
                Some(revs) => if key_index(revs@, cur@) < 0 {
                    Resolution::NoRevisionEntry
                } else {
                    let rev = revs@[key_index(revs@, cur@)].1;
                    if key_index(rev.fetch@, "http"@) < 0 {
                        Resolution::NoHttpFetch
                    } else {
                        Resolution::Found {
                            reference: rev.fetch@[key_index(rev.fetch@, "http"@)].1.reference@,
                        }
                    }
                },
            },
        }
    }
}

/// The error message reported for a failed resolution.
pub open spec fn resolution_message(r: Resolution) -> Seq<char> {
    match r {
        Resolution::NoEntity => "no entity from commit"@,
        Resolution::NoCurrentRevision => "No cur_rev"@,
        Resolution::NoRevisions => "no revisions"@,
        Resolution::NoRevisionEntry => "no revision for commit"@,
        Resolution::NoHttpFetch => "no http fetch info"@,
        Resolution::Found { reference } => Seq::empty(),
    }
}

/// What to do with one repository for one `(project, tip)` pair.
pub enum FetchDecision {
    /// The repository is bare; fatal for this repository.
    BareRepo { message: String },
    /// No remote resolves to the project; the caller should try siblings.
    NotThisRepo,
    /// A remote matched but the change data cannot supply a refspec;
    /// fatal for this project, non-fatal to others.
    EntityError { message: String },
    /// The local branch exists and force was not given; a normal,
    /// expected outcome, and fetch must not run.
    BranchExists { message: String },
    /// Run `git fetch <remote_name> <refspec>` against this repository.
    Fetch { remote_name: String, refspec: String },
}

/// Decides the fetch operation for one repository: first remote whose URL
/// resolves to `p_name` (bare or `.git`-suffixed) wins; the change whose
/// `current_revision` equals `p_tip` supplies the `http` fetch ref; an
/// existing local branch without `force` stops the fetch.
pub fn fetch_decision(
    repo: &RepoState,
    ci: &ChangeInfos,
    force: bool,
    local_branch_name: &str,
    p_name: &str,
    p_tip: &str,
) -> (r: FetchDecision)
    ensures
        repo.is_bare ==> (r matches FetchDecision::BareRepo { message } && message@
            == "repository is bare, we need a workdir"@),
        !repo.is_bare && first_matching_remote(repo.remotes@, p_name@) == -1 ==> r
            is NotThisRepo,
        !repo.is_bare && first_matching_remote(repo.remotes@, p_name@) >= 0 ==> {
            let res = resolve_reference(*ci, p_tip@);
            &&& !(res is Found) ==> (r matches FetchDecision::EntityError { message } && message@
                == resolution_message(res))
            &&& res is Found && !force && repo.branch_exists ==> (r
                matches FetchDecision::BranchExists { message } && message@
                == "Branch exists and no force"@)
            &&& res is Found && (force || !repo.branch_exists) ==> (r
                matches FetchDecision::Fetch { remote_name, refspec } && remote_name@
                == repo.remotes@[first_matching_remote(repo.remotes@, p_name@)].name@ && refspec@
                == refspec_spec(force, res->Found_reference, local_branch_name@))
        },
{
    if repo.is_bare {
        return FetchDecision::BareRepo {
            message: "repository is bare, we need a workdir".to_owned(),
        };
    }
    let k = match find_matching_remote(&repo.remotes, p_name) {
        None => { return FetchDecision::NotThisRepo; },
        Some(k) => k,
    };
    proof {
        lemma_first_matching_remote_props(repo.remotes@, p_name@);
    }
    let entity = match ci.entity_from_commit(p_tip) {
        Err(_) => {
            return FetchDecision::EntityError { message: "no entity from commit".to_owned() };
        },
        Ok(e) => e,
    };
    let cur = match &entity.current_revision {
        None => { return FetchDecision::EntityError { message: "No cur_rev".to_owned() }; },
        Some(c) => c,
    };
    let revs = match &entity.revisions {
        None => { return FetchDecision::EntityError { message: "no revisions".to_owned() }; },
        Some(v) => v,
    };
    let rev = match find_key(revs, cur.as_str()) {
        None => {
            return FetchDecision::EntityError { message: "no revision for commit".to_owned() };
        },
        Some(r) => r,
    };
    let fi = match find_key(&rev.fetch, "http") {
        None => {
            return FetchDecision::EntityError { message: "no http fetch info".to_owned() };
        },
        Some(f) => f,
    };
    let refspec = build_refspec(force, fi.reference.as_str(), local_branch_name);
    if !force && repo.branch_exists {
        return FetchDecision::BranchExists { message: "Branch exists and no force".to_owned() };
    }
    FetchDecision::Fetch { remote_name: repo.remotes[k].name.clone(), refspec }
}

/// The Gerrit search terms a topic fetch queries for: the topic by name,
/// restricted to open changes.
pub fn topic_query(topicname: &str) -> (r: String)
    ensures
        r@ == "topic:"@ + topicname@ + " status:open"@,
{
    let mut s = String::from_str("topic:");
    s.append(topicname);
    s.append(" status:open");
    proof {
        assert(s@ =~= "topic:"@ + topicname@ + " status:open"@);
    }
    s
}

/// The additional fields a topic fetch asks the server for.
pub fn fetch_fields() -> (r: Vec<String>)
    ensures
        r.deep_view() == seq!["CURRENT_REVISION"@, "CURRENT_COMMIT"@],
{
    let mut v: Vec<String> = Vec::new();
    v.push("CURRENT_REVISION".to_owned());
    v.push("CURRENT_COMMIT".to_owned());
    proof {
        assert(v.deep_view() =~= seq!["CURRENT_REVISION"@, "CURRENT_COMMIT"@]);
    }
    v
}

/// Appends the tracking command's captured output to the fetch output, each
/// non-empty stream on its own `\n* `-prefixed section, as the fetch report
/// combines them.
pub fn combine_fetch_output(
    fetch_stdout: String,
    tracking_stdout: &str,
    tracking_stderr: &str,
) -> (r: String)
    ensures
        r@ == fetch_stdout@ + (if tracking_stdout@.len() > 0 {
            "\n* "@ + tracking_stdout@
        } else {
            Seq::<char>::empty()
        }) + (if tracking_stderr@.len() > 0 {
            "\n* "@ + tracking_stderr@
        } else {
            Seq::<char>::empty()
        }),
{
    let mut out = fetch_stdout;
    let ghost base = out@;
    if tracking_stdout.unicode_len() > 0 {
        out.append("\n* ");
        out.append(tracking_stdout);
    }
    if tracking_stderr.unicode_len() > 0 {
        out.append("\n* ");
        out.append(tracking_stderr);
    }
    proof {
        assert(out@ =~= base + (if tracking_stdout@.len() > 0 {
            "\n* "@ + tracking_stdout@
        } else {
            Seq::<char>::empty()
        }) + (if tracking_stderr@.len() > 0 {
            "\n* "@ + tracking_stderr@
        } else {
            Seq::<char>::empty()
        }));
    }
    out
}

} // verus!
