//! The artifact pipeline, driven as the HTTP boundary would drive it.

use turbo_cache::config::Config;
use turbo_cache::handlers::{handle_artifact_request, ArtifactOp, ResponseBody};
use turbo_cache::helpers::GetArtifactQuery;
use turbo_cache::storage::MemoryStore;

fn query(team_id: Option<&str>, team: Option<&str>, slug: Option<&str>) -> GetArtifactQuery {
    GetArtifactQuery {
        team_id: team_id.map(|s| s.to_string()),
        team: team.map(|s| s.to_string()),
        slug: slug.map(|s| s.to_string()),
    }
}

fn head_op(id: &str, q: GetArtifactQuery) -> ArtifactOp {
    ArtifactOp::Head { id: id.to_string(), query: q }
}

fn get_op(id: &str, q: GetArtifactQuery) -> ArtifactOp {
    ArtifactOp::Get { id: id.to_string(), query: q }
}

fn put_op(id: &str, q: GetArtifactQuery, body: &[u8]) -> ArtifactOp {
    ArtifactOp::Put { id: id.to_string(), query: q, body: body.to_vec() }
}

#[test]
fn test_get_status() {
    let config = Config::default();
    let mut store = MemoryStore::new();
    let r = handle_artifact_request(
        Some(&config.turbo_tokens),
        None,
        ArtifactOp::Status,
        &mut store,
    );
    assert_eq!(r.code, 200);
    match r.body {
        ResponseBody::StatusBody(s) => assert_eq!(s.status, "enabled"),
        _ => panic!("status request must answer the status body"),
    }
}

#[test]
fn test_artifacts_unauthorized() {
    let config = Config::default();
    let mut store = MemoryStore::new();
    // `team_id` is not one of the recognized parameter names, but the guard
    // rejects the request before the parameters are looked at.
    let r = handle_artifact_request(
        Some(&config.turbo_tokens),
        None,
        head_op("123", query(None, None, None)),
        &mut store,
    );
    assert_eq!(r.code, 401);
    match r.body {
        ResponseBody::Boom(b) => {
            assert_eq!(b.status_code, 401);
            assert_eq!(b.error.as_deref(), Some("Unauthorized"));
            assert_eq!(b.message, "Missing Authorization header");
        }
        _ => panic!("an unauthorized request must answer a failure payload"),
    }
}

#[test]
fn test_artifacts_authorized() {
    let config = Config::default().with_turbo_tokens(vec!["test".to_string()]);
    let mut store = MemoryStore::new();
    let header = "Bearer test".to_string();
    let r = handle_artifact_request(
        Some(&config.turbo_tokens),
        Some(&header),
        head_op("123", query(Some("test"), None, None)),
        &mut store,
    );
    assert_eq!(r.code, 404);
    match r.body {
        ResponseBody::Boom(b) => {
            assert_eq!(b.status_code, 404);
            assert_eq!(b.error.as_deref(), Some("Not Found"));
            assert_eq!(b.message, "Artifact not found");
        }
        _ => panic!("a miss must answer a failure payload"),
    }
}

#[test]
fn test_artifacts_without_team_param() {
    let config = Config::default().with_turbo_tokens(vec!["test".to_string()]);
    let mut store = MemoryStore::new();
    let header = "Bearer test".to_string();
    let r = handle_artifact_request(
        Some(&config.turbo_tokens),
        Some(&header),
        head_op("123", query(None, None, None)),
        &mut store,
    );
    assert_eq!(r.code, 400);
}

#[test]
fn test_artifacts_head_ok() {
    let config = Config::default().with_turbo_tokens(vec!["test".to_string()]);
    let mut store = MemoryStore::new();
    let header = "Bearer test".to_string();
    let put_resp = handle_artifact_request(
        Some(&config.turbo_tokens),
        Some(&header),
        put_op("123", query(Some("test"), None, None), b"test"),
        &mut store,
    );
    assert_eq!(put_resp.code, 200);

    let head_resp = handle_artifact_request(
        Some(&config.turbo_tokens),
        Some(&header),
        head_op("123", query(Some("test"), None, None)),
        &mut store,
    );
    assert_eq!(head_resp.code, 200);
}

#[test]
fn test_artifacts_get_ok() {
    let config = Config::default().with_turbo_tokens(vec!["test".to_string()]);
    let mut store = MemoryStore::new();
    let header = "Bearer test".to_string();
    let put_resp = handle_artifact_request(
        Some(&config.turbo_tokens),
        Some(&header),
        put_op("123", query(Some("test"), None, None), b"test"),
        &mut store,
    );
    assert_eq!(put_resp.code, 200);

    let get_resp = handle_artifact_request(
        Some(&config.turbo_tokens),
        Some(&header),
        get_op("123", query(Some("test"), None, None)),
        &mut store,
    );
    assert_eq!(get_resp.code, 200);
    match get_resp.body {
        ResponseBody::Data(d) => assert_eq!(d, b"test".to_vec()),
        _ => panic!("a hit must answer the raw bytes"),
    }
}

#[test]
fn test_artifacts_put_ok() {
    let config = Config::default().with_turbo_tokens(vec!["test".to_string()]);
    let mut store = MemoryStore::new();
    let header = "Bearer test".to_string();
    let r = handle_artifact_request(
        Some(&config.turbo_tokens),
        Some(&header),
        put_op("123", query(Some("test"), None, None), b"test"),
        &mut store,
    );
    assert_eq!(r.code, 200);
    match r.body {
        ResponseBody::Urls(u) => assert_eq!(u.urls, vec!["test/123".to_string()]),
        _ => panic!("a store must answer the canonical location"),
    }
}

#[test]
fn scenario_put_get_head_and_miss() {
    // Token set {"abc"}; store under t1/123, read it back, check it, and
    // miss a never-written id.
    let tokens = vec!["abc".to_string()];
    let mut store = MemoryStore::new();
    let header = "Bearer abc".to_string();

    let put_resp = handle_artifact_request(
        Some(&tokens),
        Some(&header),
        put_op("123", query(Some("t1"), None, None), b"hello"),
        &mut store,
    );
    assert_eq!(put_resp.code, 200);
    match put_resp.body {
        ResponseBody::Urls(u) => assert_eq!(u.urls, vec!["t1/123".to_string()]),
        _ => panic!("a store must answer the canonical location"),
    }

    let get_resp = handle_artifact_request(
        Some(&tokens),
        Some(&header),
        get_op("123", query(Some("t1"), None, None)),
        &mut store,
    );
    assert_eq!(get_resp.code, 200);
    match get_resp.body {
        ResponseBody::Data(d) => assert_eq!(d, b"hello".to_vec()),
        _ => panic!("a hit must answer the raw bytes"),
    }

    let head_resp = handle_artifact_request(
        Some(&tokens),
        Some(&header),
        head_op("123", query(Some("t1"), None, None)),
        &mut store,
    );
    assert_eq!(head_resp.code, 200);

    let miss = handle_artifact_request(
        Some(&tokens),
        Some(&header),
        get_op("999", query(Some("t1"), None, None)),
        &mut store,
    );
    assert_eq!(miss.code, 404);
}

#[test]
fn missing_token_configuration_is_a_bad_request() {
    let mut store = MemoryStore::new();
    let header = "Bearer abc".to_string();
    let r = handle_artifact_request(
        None,
        Some(&header),
        head_op("123", query(Some("t1"), None, None)),
        &mut store,
    );
    assert_eq!(r.code, 400);
    match r.body {
        ResponseBody::Boom(b) => {
            assert_eq!(b.status_code, 400);
            assert_eq!(b.error.as_deref(), Some("Bad Request"));
            assert_eq!(b.message, "Missing TURBO_TOKENS in the environment");
        }
        _ => panic!("a misconfiguration must answer a failure payload"),
    }
}

#[test]
fn unknown_token_is_unauthorized() {
    let tokens = vec!["abc".to_string()];
    let mut store = MemoryStore::new();
    let header = "Bearer wrong".to_string();
    let r = handle_artifact_request(
        Some(&tokens),
        Some(&header),
        get_op("123", query(Some("t1"), None, None)),
        &mut store,
    );
    assert_eq!(r.code, 401);
    match r.body {
        ResponseBody::Boom(b) => assert_eq!(b.message, "Invalid Turbo Token"),
        _ => panic!("an unknown token must answer a failure payload"),
    }
}

#[test]
fn malformed_header_is_unauthorized() {
    let tokens = vec!["abc".to_string()];
    let mut store = MemoryStore::new();
    let header = "Basic abc".to_string();
    let r = handle_artifact_request(
        Some(&tokens),
        Some(&header),
        put_op("123", query(Some("t1"), None, None), b"x"),
        &mut store,
    );
    assert_eq!(r.code, 401);
    match r.body {
        ResponseBody::Boom(b) => assert_eq!(b.message, "Invalid Authorization header"),
        _ => panic!("a malformed header must answer a failure payload"),
    }
    // The rejected store changed nothing.
    assert!(!store.contains(&"t1/123".to_string()));
}

#[test]
fn empty_token_set_rejects_every_token() {
    let tokens: Vec<String> = vec![];
    let mut store = MemoryStore::new();
    let header = "Bearer anything".to_string();
    let r = handle_artifact_request(
        Some(&tokens),
        Some(&header),
        head_op("123", query(Some("t1"), None, None)),
        &mut store,
    );
    assert_eq!(r.code, 401);
}

#[test]
fn events_endpoint_is_guarded_and_discards_its_body() {
    let tokens = vec!["abc".to_string()];
    let mut store = MemoryStore::new();

    let rejected =
        handle_artifact_request(Some(&tokens), None, ArtifactOp::Events, &mut store);
    assert_eq!(rejected.code, 401);

    let header = "Bearer abc".to_string();
    let r = handle_artifact_request(Some(&tokens), Some(&header), ArtifactOp::Events, &mut store);
    assert_eq!(r.code, 200);
    assert!(matches!(r.body, ResponseBody::Empty));
}

#[test]
fn team_alias_parameters_reach_the_same_artifact() {
    let tokens = vec!["abc".to_string()];
    let mut store = MemoryStore::new();
    let header = "Bearer abc".to_string();

    let put_resp = handle_artifact_request(
        Some(&tokens),
        Some(&header),
        put_op("123", query(Some("t1"), None, None), b"hello"),
        &mut store,
    );
    assert_eq!(put_resp.code, 200);

    // The legacy aliases resolve to the same key.
    for q in [query(None, Some("t1"), None), query(None, None, Some("t1"))] {
        let r = handle_artifact_request(
            Some(&tokens),
            Some(&header),
            get_op("123", q),
            &mut store,
        );
        assert_eq!(r.code, 200);
    }
}

#[test]
fn team_id_takes_precedence_over_aliases() {
    let tokens = vec!["abc".to_string()];
    let mut store = MemoryStore::new();
    let header = "Bearer abc".to_string();

    let r = handle_artifact_request(
        Some(&tokens),
        Some(&header),
        put_op("123", query(Some("t1"), Some("t2"), Some("t3")), b"hello"),
        &mut store,
    );
    assert_eq!(r.code, 200);
    match r.body {
        ResponseBody::Urls(u) => assert_eq!(u.urls, vec!["t1/123".to_string()]),
        _ => panic!("a store must answer the canonical location"),
    }
    assert!(store.contains(&"t1/123".to_string()));
    assert!(!store.contains(&"t2/123".to_string()));
    assert!(!store.contains(&"t3/123".to_string()));
}

#[test]
fn overwrite_keeps_the_last_write() {
    let tokens = vec!["abc".to_string()];
    let mut store = MemoryStore::new();
    let header = "Bearer abc".to_string();

    for body in [b"first".as_slice(), b"second".as_slice()] {
        let r = handle_artifact_request(
            Some(&tokens),
            Some(&header),
            put_op("123", query(Some("t1"), None, None), body),
            &mut store,
        );
        assert_eq!(r.code, 200);
    }
    let r = handle_artifact_request(
        Some(&tokens),
        Some(&header),
        get_op("123", query(Some("t1"), None, None)),
        &mut store,
    );
    match r.body {
        ResponseBody::Data(d) => assert_eq!(d, b"second".to_vec()),
        _ => panic!("a hit must answer the raw bytes"),
    }
}

#[test]
fn empty_artifact_id_is_a_valid_id() {
    let tokens = vec!["abc".to_string()];
    let mut store = MemoryStore::new();
    let header = "Bearer abc".to_string();

    let r = handle_artifact_request(
        Some(&tokens),
        Some(&header),
        put_op("", query(Some("t1"), None, None), b"x"),
        &mut store,
    );
    assert_eq!(r.code, 200);
    match r.body {
        ResponseBody::Urls(u) => assert_eq!(u.urls, vec!["t1/".to_string()]),
        _ => panic!("a store must answer the canonical location"),
    }
}
