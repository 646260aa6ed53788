use ggr::checkout::checkout_guard;
use ggr::checkout::checkout_report;
use ggr::entities::ChangeInfo;
use ggr::entities::ChangeInfos;
use ggr::entities::FetchInfo;
use ggr::entities::RevisionInfo;
use ggr::error::GGRError;
use ggr::fetch::FetchDecision;
use ggr::fetch::RemoteInfo;
use ggr::fetch::RepoState;
use ggr::fetch::build_refspec;
use ggr::fetch::combine_fetch_output;
use ggr::fetch::fetch_decision;
use ggr::fetch::fetch_fields;
use ggr::fetch::topic_query;
use ggr::gerrit::Gerrit;

fn change(project: &str, current_revision: Option<&str>) -> ChangeInfo {
    ChangeInfo {
        project: project.to_string(),
        topic: Some("tested".to_string()),
        status: "NEW".to_string(),
        current_revision: current_revision.map(|s| s.to_string()),
        revisions: None,
    }
}

fn demo_change() -> ChangeInfo {
    let fi = FetchInfo {
        url: "http://host/demo.git".to_string(),
        reference: "refs/changes/34/1234/1".to_string(),
    };
    let rev = RevisionInfo { fetch: vec![("http".to_string(), fi)] };
    ChangeInfo {
        project: "demo".to_string(),
        topic: Some("tested".to_string()),
        status: "NEW".to_string(),
        current_revision: Some("abc123".to_string()),
        revisions: Some(vec![("abc123".to_string(), rev)]),
    }
}

fn demo_repo(branch_exists: bool) -> RepoState {
    RepoState {
        is_bare: false,
        remotes: vec![RemoteInfo {
            name: "origin".to_string(),
            url: "http://host/demo.git".to_string(),
        }],
        branch_exists,
    }
}

#[test]
fn test_project_tip_first_entity_wins() {
    let ci = ChangeInfos::new(
        vec![change("p", Some("newest")), change("p", Some("older"))],
        String::new(),
    );
    let tips = ci.project_tip().expect("non-empty collection");
    assert_eq!(tips, vec![("p".to_string(), "newest".to_string())]);
}

#[test]
fn test_project_tip_orders_projects_by_first_occurrence() {
    let ci = ChangeInfos::new(
        vec![change("a", Some("1")), change("b", Some("2")), change("a", Some("3"))],
        String::new(),
    );
    let tips = ci.project_tip().expect("non-empty collection");
    assert_eq!(
        tips,
        vec![("a".to_string(), "1".to_string()), ("b".to_string(), "2".to_string())]
    );
}

#[test]
fn test_project_tip_empty_collection() {
    let ci = ChangeInfos::empty();
    assert!(ci.project_tip().is_none());
}

#[test]
fn test_entity_from_commit_found() {
    let ci = ChangeInfos::new(vec![change("p", Some("abc"))], String::new());
    let e = ci.entity_from_commit("abc").expect("present");
    assert_eq!(e.project, "p");
}

#[test]
fn test_entity_from_commit_absent_is_error() {
    let ci = ChangeInfos::new(vec![change("p", Some("abc"))], String::new());
    match ci.entity_from_commit("missing") {
        Ok(_) => panic!("absent hash must be an error"),
        Err(GGRError::General(m)) => assert_eq!(m, "no entity from commit"),
        Err(_) => panic!("unexpected error kind"),
    }
}

#[test]
fn test_build_refspec_force() {
    assert_eq!(
        build_refspec(true, "refs/changes/1/1/1", "topicbranch"),
        "+refs/changes/1/1/1:topicbranch"
    );
}

#[test]
fn test_build_refspec_no_force() {
    assert_eq!(
        build_refspec(false, "refs/changes/1/1/1", "topicbranch"),
        "refs/changes/1/1/1:topicbranch"
    );
}

#[test]
fn test_fetch_decision_matches_and_fetches() {
    let ci = ChangeInfos::new(vec![demo_change()], String::new());
    match fetch_decision(&demo_repo(false), &ci, false, "work", "demo", "abc123") {
        FetchDecision::Fetch { remote_name, refspec } => {
            assert_eq!(remote_name, "origin");
            assert_eq!(refspec, "refs/changes/34/1234/1:work");
        },
        _ => panic!("expected a fetch against the matched remote"),
    }
}

#[test]
fn test_fetch_decision_branch_exists_no_force() {
    let ci = ChangeInfos::new(vec![demo_change()], String::new());
    match fetch_decision(&demo_repo(true), &ci, false, "work", "demo", "abc123") {
        FetchDecision::BranchExists { message } => {
            assert_eq!(message, "Branch exists and no force");
        },
        _ => panic!("existing branch without force must stop the fetch"),
    }
}

#[test]
fn test_fetch_decision_branch_exists_with_force_fetches() {
    let ci = ChangeInfos::new(vec![demo_change()], String::new());
    match fetch_decision(&demo_repo(true), &ci, true, "work", "demo", "abc123") {
        FetchDecision::Fetch { remote_name, refspec } => {
            assert_eq!(remote_name, "origin");
            assert_eq!(refspec, "+refs/changes/34/1234/1:work");
        },
        _ => panic!("force must fetch over an existing branch"),
    }
}

#[test]
fn test_fetch_decision_not_this_repo() {
    let ci = ChangeInfos::new(vec![demo_change()], String::new());
    let repo = RepoState {
        is_bare: false,
        remotes: vec![RemoteInfo {
            name: "origin".to_string(),
            url: "http://host/other.git".to_string(),
        }],
        branch_exists: false,
    };
    match fetch_decision(&repo, &ci, false, "work", "demo", "abc123") {
        FetchDecision::NotThisRepo => {},
        _ => panic!("a repository resolving to another project must be skipped"),
    }
}

#[test]
fn test_fetch_decision_bare_repo() {
    let ci = ChangeInfos::new(vec![demo_change()], String::new());
    let repo = RepoState { is_bare: true, remotes: vec![], branch_exists: false };
    match fetch_decision(&repo, &ci, false, "work", "demo", "abc123") {
        FetchDecision::BareRepo { message } => {
            assert_eq!(message, "repository is bare, we need a workdir");
        },
        _ => panic!("bare repositories are fatal for the repository"),
    }
}

#[test]
fn test_fetch_decision_no_entity() {
    let ci = ChangeInfos::new(vec![demo_change()], String::new());
    match fetch_decision(&demo_repo(false), &ci, false, "work", "demo", "feed42") {
        FetchDecision::EntityError { message } => {
            assert_eq!(message, "no entity from commit");
        },
        _ => panic!("an absent tip commit is an entity error"),
    }
}

#[test]
fn test_fetch_decision_no_revisions() {
    let ci = ChangeInfos::new(vec![change("demo", Some("abc123"))], String::new());
    match fetch_decision(&demo_repo(false), &ci, false, "work", "demo", "abc123") {
        FetchDecision::EntityError { message } => {
            assert_eq!(message, "no revisions");
        },
        _ => panic!("a change without revisions is an entity error"),
    }
}

#[test]
fn test_fetch_decision_revision_entry_missing() {
    let fi = FetchInfo {
        url: "http://host/demo.git".to_string(),
        reference: "refs/changes/34/1234/1".to_string(),
    };
    let rev = RevisionInfo { fetch: vec![("http".to_string(), fi)] };
    let mut c = change("demo", Some("abc123"));
    c.revisions = Some(vec![("other".to_string(), rev)]);
    let ci = ChangeInfos::new(vec![c], String::new());
    match fetch_decision(&demo_repo(false), &ci, false, "work", "demo", "abc123") {
        FetchDecision::EntityError { message } => {
            assert_eq!(message, "no revision for commit");
        },
        _ => panic!("a tip absent from the revisions map is an entity error"),
    }
}

#[test]
fn test_fetch_decision_no_http_fetch_info() {
    let rev = RevisionInfo { fetch: vec![] };
    let mut c = change("demo", Some("abc123"));
    c.revisions = Some(vec![("abc123".to_string(), rev)]);
    let ci = ChangeInfos::new(vec![c], String::new());
    match fetch_decision(&demo_repo(false), &ci, false, "work", "demo", "abc123") {
        FetchDecision::EntityError { message } => {
            assert_eq!(message, "no http fetch info");
        },
        _ => panic!("a revision without http fetch info is an entity error"),
    }
}

#[test]
fn test_topic_query_and_fields() {
    assert_eq!(topic_query("tested"), "topic:tested status:open");
    assert_eq!(
        fetch_fields(),
        vec!["CURRENT_REVISION".to_string(), "CURRENT_COMMIT".to_string()]
    );
}

#[test]
fn test_end_to_end_topic_fetch() {
    let g = Gerrit::new("http://localhost:8080/").expect("url");
    let (path, query) = g.changes_request(
        Some(vec![topic_query("tested")]),
        Some(fetch_fields()),
    );
    assert_eq!(path, "/changes/");
    assert_eq!(
        query,
        "pp=0&q=topic:tested status:open&o=CURRENT_REVISION&o=CURRENT_COMMIT"
    );
    let ci = Gerrit::changes_from_response(Some((vec![demo_change()], "[]".to_string())));
    let tips = ci.project_tip().expect("one change");
    assert_eq!(tips, vec![("demo".to_string(), "abc123".to_string())]);
    let (p_name, p_tip) = (&tips[0].0, &tips[0].1);
    match fetch_decision(&demo_repo(false), &ci, false, "work", p_name, p_tip) {
        FetchDecision::Fetch { remote_name, refspec } => {
            assert_eq!(remote_name, "origin");
            assert_eq!(refspec, "refs/changes/34/1234/1:work");
        },
        _ => panic!("the matched remote must be fetched"),
    }
}

#[test]
fn test_changes_from_response_empty_body() {
    let ci = Gerrit::changes_from_response(None);
    assert!(ci.entities.is_empty());
    assert_eq!(ci.raw, "");
}

#[test]
fn test_combine_fetch_output() {
    assert_eq!(combine_fetch_output("out".to_string(), "", ""), "out");
    assert_eq!(
        combine_fetch_output("out".to_string(), "track", "warn"),
        "out\n* track\n* warn"
    );
    assert_eq!(combine_fetch_output("out".to_string(), "", "warn"), "out\n* warn");
}

#[test]
fn test_checkout_guard() {
    assert!(checkout_guard(false).is_ok());
    match checkout_guard(true) {
        Ok(_) => panic!("bare repository must be rejected"),
        Err(GGRError::General(m)) => {
            assert_eq!(m, "repository needs to be a workdir and not bare");
        },
        Err(_) => panic!("unexpected error kind"),
    }
}

#[test]
fn test_checkout_report_partitions() {
    let ok = vec!["sub_a".to_string()];
    let ko = vec!["sub_b -> failed".to_string()];
    let lines = checkout_report("work", &ok, &ko);
    assert_eq!(
        lines,
        vec![
            "Not possible to checkout 'work' on this repositories:".to_string(),
            "* sub_b -> failed".to_string(),
            "Successfull checkout of 'work' on this repositories:".to_string(),
            "* sub_a".to_string(),
        ]
    );
}

#[test]
fn test_checkout_report_nothing_happened() {
    let ok: Vec<String> = Vec::new();
    let ko = vec!["main -> failed".to_string()];
    let lines = checkout_report("work", &ok, &ko);
    assert_eq!(
        lines,
        vec![
            "Not possible to checkout 'work' on this repositories:".to_string(),
            "* main -> failed".to_string(),
            "No checkout happened".to_string(),
        ]
    );
}

#[test]
fn test_checkout_report_all_succeeded() {
    let ok = vec!["main".to_string(), "sub".to_string()];
    let ko: Vec<String> = Vec::new();
    let lines = checkout_report("work", &ok, &ko);
    assert_eq!(
        lines,
        vec![
            "Successfull checkout of 'work' on this repositories:".to_string(),
            "* main".to_string(),
            "* sub".to_string(),
        ]
    );
}
