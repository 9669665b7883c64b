use pavkhemerak_api::config::{Config, ConfigError};
use pavkhemerak_api::db::sqlite_file_path;
use pavkhemerak_api::error::ApiError;
use pavkhemerak_api::routes::dashboard::dashboard_stats;
use pavkhemerak_api::routes::github::{
    activity_response, describe_event, events_url, EventPayload, GitHubEvent, GitHubRepo,
};
use pavkhemerak_api::routes::portfolio::{
    check_portfolio_update, portfolio_update_text, stored_portfolio, stored_portfolio_from,
    PortfolioBody,
};

fn payload() -> EventPayload {
    EventPayload { size: None, git_ref: None, ref_type: None, action: None }
}

#[test]
fn config_defaults() {
    let c = Config::from_vars(None, None, None, None, None).unwrap();
    assert_eq!(c.port, 3001);
    assert_eq!(c.database_url, "sqlite:data/pavkhemerak.db");
    assert_eq!(c.github_username, "khemerak");
    assert_eq!(c.etherscan_api_key, None);
    assert_eq!(c.admin_api_key, "change-me-in-production");
}

#[test]
fn config_takes_given_values() {
    let c = Config::from_vars(
        Some("8080".into()),
        Some("sqlite:/tmp/x.db".into()),
        Some("octo".into()),
        Some("KEY".into()),
        Some("admin".into()),
    )
    .unwrap();
    assert_eq!((c.port, c.github_username.as_str()), (8080, "octo"));
    assert_eq!(c.etherscan_api_key, Some("KEY".to_string()));
    assert_eq!(c.admin_api_key, "admin");
}

#[test]
fn config_empty_etherscan_key_is_none() {
    let c = Config::from_vars(None, None, None, Some(String::new()), None).unwrap();
    assert_eq!(c.etherscan_api_key, None);
}

#[test]
fn config_refuses_bad_port() {
    assert_eq!(
        Config::from_vars(Some("http".into()), None, None, None, None),
        Err(ConfigError::InvalidPort("http".into()))
    );
    assert_eq!(
        Config::from_vars(Some("70000".into()), None, None, None, None),
        Err(ConfigError::InvalidPort("70000".into()))
    );
}

#[test]
fn sqlite_path_of_url() {
    assert_eq!(sqlite_file_path("sqlite:data/pavkhemerak.db"), Some("data/pavkhemerak.db".into()));
    assert_eq!(sqlite_file_path("postgres://db"), None);
}

#[test]
fn dashboard_defaults_failed_queries() {
    let s = dashboard_stats(None, None, None, None, None);
    assert_eq!((s.total_posts, s.total_views), (0, 0));
    assert!(s.categories.is_empty() && s.top_posts.is_empty());
    assert_eq!(s.latest_post_date, None);
}

#[test]
fn dashboard_keeps_rows() {
    let s = dashboard_stats(
        Some(5),
        Some(120),
        Some(vec![("CTF".into(), 3), ("GENERAL".into(), 2)]),
        Some(Some("2024-11-01".into())),
        Some(vec![("a".into(), "A".into(), 90, "CTF".into())]),
    );
    assert_eq!((s.total_posts, s.total_views), (5, 120));
    assert_eq!(s.categories[1].name, "GENERAL");
    assert_eq!(s.categories[1].count, 2);
    assert_eq!(s.latest_post_date, Some("2024-11-01".to_string()));
    assert_eq!(s.top_posts[0].views, 90);
}

#[test]
fn push_events_count_commits() {
    let p = EventPayload { size: Some(3), git_ref: Some("refs/heads/main".into()), ..payload() };
    assert_eq!(describe_event("PushEvent", &p), "Pushed 3 commit(s) to main");
    assert_eq!(describe_event("PushEvent", &payload()), "Pushed 0 commit(s) to unknown");
    let p = EventPayload { size: Some(-2), ..payload() };
    assert_eq!(describe_event("PushEvent", &p), "Pushed -2 commit(s) to unknown");
}

#[test]
fn other_events() {
    let p = EventPayload { ref_type: Some("branch".into()), action: Some("opened".into()), ..payload() };
    assert_eq!(describe_event("CreateEvent", &p), "Created branch");
    assert_eq!(describe_event("DeleteEvent", &payload()), "Deleted unknown");
    assert_eq!(describe_event("WatchEvent", &p), "Starred repository");
    assert_eq!(describe_event("ForkEvent", &p), "Forked repository");
    assert_eq!(describe_event("IssuesEvent", &p), "Issue opened");
    assert_eq!(describe_event("PullRequestEvent", &p), "Pull request opened");
    assert_eq!(describe_event("IssueCommentEvent", &p), "Commented on an issue");
    assert_eq!(describe_event("ReleaseEvent", &p), "Release");
    assert_eq!(describe_event("GollumEvent", &p), "Gollum");
}

#[test]
fn feed_keeps_event_order() {
    let e = |id: &str, t: &str| GitHubEvent {
        id: id.into(),
        event_type: t.into(),
        repo: GitHubRepo { name: "octo/repo".into(), url: "https://api.github.com/repos/octo/repo".into() },
        created_at: "2024-01-01T00:00:00Z".into(),
        payload: payload(),
    };
    let r = activity_response("octo".into(), vec![e("1", "WatchEvent"), e("2", "ForkEvent")]);
    assert_eq!(r.username, "octo");
    assert_eq!(r.events[0].description, "Starred repository");
    assert_eq!(r.events[1].id, "2");
    assert_eq!(r.events[1].repo, "octo/repo");
    assert_eq!(events_url("octo"), "https://api.github.com/users/octo/events?per_page=15");
}

#[test]
fn portfolio_update_checks() {
    assert_eq!(check_portfolio_update(&None, "k", true), Err(ApiError::Unauthorized));
    assert_eq!(
        check_portfolio_update(&Some("k".into()), "k", false),
        Err(ApiError::BadRequest("Portfolio content must be a JSON object".into()))
    );
    assert_eq!(check_portfolio_update(&Some("k".into()), "k", true), Ok(()));
}

#[test]
fn stored_portfolio_reads_json() {
    assert!(stored_portfolio(None).unwrap().is_none());
    let p = stored_portfolio(Some(("{\"a\":1}".into(), "2024-01-01".into()))).unwrap().unwrap();
    assert_eq!(p.updated_at, "2024-01-01");
    assert_eq!(p.content["a"], 1);
    match stored_portfolio(Some(("{oops".into(), "t".into()))) {
        Err(ApiError::Internal(m)) => {
            assert!(m.starts_with("Invalid stored portfolio content JSON: "));
            assert!(m.len() > "Invalid stored portfolio content JSON: ".len());
        }
        other => panic!("unexpected {other:?}"),
    }
}

fn body_of(value: &serde_json::Value) -> PortfolioBody {
    PortfolioBody {
        is_object: value.is_object(),
        text: serde_json::to_string(value).map_err(|e| e.to_string()),
    }
}

#[test]
fn portfolio_update_text_checks_and_writes() {
    let body = doc(r#"{"name": "Pav", "skills": ["rust"]}"#);
    assert_eq!(portfolio_update_text(&None, "k", body_of(&body)), Err(ApiError::Unauthorized));
    assert_eq!(portfolio_update_text(&None, "", body_of(&body)), Err(ApiError::Unauthorized));
    assert_eq!(
        portfolio_update_text(&Some("k".into()), "k", body_of(&doc("[1, 2]"))),
        Err(ApiError::BadRequest("Portfolio content must be a JSON object".into()))
    );
    let text = portfolio_update_text(&Some("k".into()), "k", body_of(&body)).unwrap();
    assert_eq!(text, "{\"name\":\"Pav\",\"skills\":[\"rust\"]}");
    assert_eq!(
        portfolio_update_text(
            &Some("k".into()),
            "k",
            PortfolioBody { is_object: true, text: Err("boom".into()) }
        ),
        Err(ApiError::BadRequest("Invalid JSON body: boom".into()))
    );
}

#[test]
fn portfolio_update_then_read_gives_the_body_back() {
    let body = doc(r#"{"about": "hi", "n": 3}"#);
    let text = portfolio_update_text(&Some("k".into()), "k", body_of(&body)).unwrap();
    let read = stored_portfolio(Some((text, "2024-01-02".into()))).unwrap().unwrap();
    assert_eq!(read.content, body);
    assert_eq!(read.updated_at, "2024-01-02");
}

#[test]
fn stored_portfolio_from_keeps_the_parsed_document() {
    let v = doc(r#"{"x": true}"#);
    let p = stored_portfolio_from(Ok(v.clone()), "t".into()).unwrap();
    assert_eq!(p.content, v);
    assert_eq!(p.updated_at, "t");
    match stored_portfolio_from(Err("bad".into()), "t".into()) {
        Err(ApiError::Internal(m)) => assert_eq!(m, "Invalid stored portfolio content JSON: bad"),
        other => panic!("unexpected {other:?}"),
    }
}

fn doc(text: &str) -> serde_json::Value {
    serde_json::from_str(text).unwrap()
}
