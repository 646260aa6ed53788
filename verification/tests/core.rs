use ggr::config::Config;
use ggr::gerrit::Gerrit;
use ggr::matcher::url_to_projectname;
use ggr::matcher::url_matches_project;
use ggr::query::Query;
use ggr::query::build_query_string;
use ggr::error::GGRError;

#[test]
fn test_url_to_projectname() {
    assert_eq!(url_to_projectname("http://das/haus/vom/nikolause"), Some("nikolause"));
    assert_eq!(url_to_projectname("http://."), Some("."));
    assert_eq!(url_to_projectname("nikolause"), None);
    assert_eq!(url_to_projectname("n/i/k/o/lause"), Some("lause"));
    assert_eq!(url_to_projectname(""), None);
}

#[test]
fn test_url_matches_project() {
    assert!(url_matches_project("http://host/demo", "demo"));
    assert!(url_matches_project("http://host/demo.git", "demo"));
    assert!(!url_matches_project("http://host/other", "demo"));
    assert!(!url_matches_project("demo", "demo"));
}

#[test]
fn test_build_empty_query() {
    let terms: Vec<String> = Vec::new();
    assert_eq!(build_query_string(&terms), "");
}

#[test]
fn test_build_joins_terms() {
    let terms = vec!["a:1".to_string(), "b:2".to_string()];
    assert_eq!(build_query_string(&terms), "a:1+b:2");
}

#[test]
fn test_build_strips_trailing_separator() {
    let terms = vec!["a:1".to_string(), String::new()];
    assert_eq!(build_query_string(&terms), "a:1");
}

#[test]
fn test_new_query_builds_empty() {
    assert_eq!(Query::new().build(), "");
}

#[test]
fn test_error_messages() {
    assert_eq!(GGRError::General("g".to_string()).message(), "g");
    assert_eq!(GGRError::Transport("t".to_string()).message(), "t");
    assert_eq!(GGRError::Decode("d".to_string()).message(), "d");
}

#[test]
fn test_query_add_and_get() {
    let mut q = Query::new();
    q.add_str("topic:t".to_string());
    q.add_str("status:open".to_string());
    assert_eq!(q.get_query(), &vec!["topic:t".to_string(), "status:open".to_string()]);
    assert_eq!(q.build(), "topic:t+status:open");
}

#[test]
fn test_query_from_vec() {
    let q = Query::from(vec!["x:y".to_string()]);
    assert_eq!(q.get_query(), &vec!["x:y".to_string()]);
}

fn sample_config() -> Config {
    let mut c = Config::default();
    c.scheme = "http".to_string();
    c.base = "localhost".to_string();
    c.port = 8080;
    c.username = "user".to_string();
    c.password = "pass".to_string();
    c
}

#[test]
fn test_config_base_url_without_appendix() {
    let c = sample_config();
    assert_eq!(c.get_base_url(), "http://localhost:8080/");
}

#[test]
fn test_config_base_url_with_appendix() {
    let mut c = sample_config();
    c.appendix = "gerrit".to_string();
    assert_eq!(c.get_base_url(), "http://localhost:8080/gerrit/");
}

#[test]
fn test_config_is_valid() {
    assert!(sample_config().is_valid());
    let mut c = sample_config();
    c.scheme = String::new();
    assert!(!c.is_valid());
    let mut c = sample_config();
    c.base = String::new();
    assert!(!c.is_valid());
}

#[test]
fn test_config_accessors_and_default() {
    let c = sample_config();
    assert_eq!(c.get_username(), "user");
    assert_eq!(c.get_password(), "pass");
    let d = Config::default();
    assert_eq!(d.port, 80);
    assert!(d.root);
    assert_eq!(d.get_username(), "");
}

#[test]
fn test_config_display_text() {
    let c = sample_config();
    assert_eq!(
        c.display_text(),
        "* url ......... : http://localhost:8080/\n  user/pass ... : user / \"pass\"\n  root ........ : true"
    );
}

#[test]
fn test_gerrit_new_accepts_absolute_url() {
    let g = Gerrit::new("http://localhost:8080/gerrit").expect("absolute url accepted");
    assert_eq!(g.url, "http://localhost:8080/gerrit");
}

#[test]
fn test_gerrit_new_rejects_relative_url() {
    match Gerrit::new("not a url") {
        Ok(_) => panic!("relative url must be rejected"),
        Err(GGRError::General(m)) => assert_eq!(m, "invalid gerrit base url"),
        Err(_) => panic!("unexpected error kind"),
    }
}

#[test]
fn test_changes_request() {
    let g = Gerrit::new("http://localhost:8080/").expect("url");
    let (path, query) = g.changes_request(
        Some(vec!["topic:t status:open".to_string()]),
        Some(vec!["CURRENT_REVISION".to_string(), "CURRENT_COMMIT".to_string()]),
    );
    assert_eq!(path, "/changes/");
    assert_eq!(query, "pp=0&q=topic:t status:open&o=CURRENT_REVISION&o=CURRENT_COMMIT");
}

#[test]
fn test_changes_request_no_filters() {
    let g = Gerrit::new("http://localhost:8080/").expect("url");
    let (path, query) = g.changes_request(None, None);
    assert_eq!(path, "/changes/");
    assert_eq!(query, "pp=0&q=");
}

#[test]
fn test_use_credentials() {
    assert!(Gerrit::use_credentials("u", "p"));
    assert!(!Gerrit::use_credentials("", "p"));
    assert!(!Gerrit::use_credentials("u", ""));
    assert!(!Gerrit::use_credentials("", ""));
}
