use velox::handlers::health_outcome_reply;
use velox::handlers::resolve_outcome_reply;
use velox::handlers::shorten_outcome_reply;
use velox::index;
use velox::validate_url;
use velox::AppError;
use velox::Body;
use velox::HttpReply;
use velox::MemStore;
use velox::Service;
use velox::StoreError;

fn message_of(reply: &HttpReply) -> &str {
    match &reply.body {
        Body::Message(m) => m.as_str(),
        _ => panic!("expected a message body"),
    }
}

fn shortened_of(reply: HttpReply) -> (String, String) {
    match reply.body {
        Body::Shortened(s) => (s.original, s.shortened),
        _ => panic!("expected a shortened body"),
    }
}

fn code_of(reply: HttpReply, base_url: &str) -> String {
    let (_, shortened) = shortened_of(reply);
    let prefix = format!("{}/", base_url);
    assert!(shortened.starts_with(&prefix));
    shortened[prefix.len()..].to_string()
}

const BASE: &str = "http://localhost:8082";

#[test]
fn index_is_fixed_welcome() {
    let reply = index();
    assert_eq!(reply.status, 200);
    assert_eq!(message_of(&reply), "Welcome to Velox URL Shortener!");
    assert!(reply.location.is_none());
}

#[test]
fn validate_accepts_wellformed_absolute_urls() {
    assert!(validate_url("https://example.com/page").is_ok());
    assert!(validate_url("http://localhost:8082").is_ok());
    assert!(validate_url("ftp://files.example.com/a.txt").is_ok());
    assert!(validate_url("mailto:user@example.com").is_ok());
}

#[test]
fn validate_rejects_unparsable_strings() {
    for bad in ["not a url", "not-a-url", "", "://missing-scheme", "http//no-colon"] {
        let err = validate_url(bad).unwrap_err();
        assert!(matches!(err, AppError::InvalidUrl(_)));
    }
}

#[test]
fn shorten_replies_with_code_no_longer_than_eight() {
    let mut svc = Service::new(BASE.to_string());
    for _ in 0..64 {
        let reply = svc.shorten_url("https://example.com/page");
        assert_eq!(reply.status, 200);
        let code = code_of(reply, BASE);
        assert!(1 <= code.len() && code.len() <= 8);
        assert!(code.chars().all(|c| c.is_ascii_alphanumeric()));
    }
}

#[test]
fn shorten_then_resolve_round_trip() {
    let mut svc = Service::new(BASE.to_string());
    let reply = svc.shorten_url("https://example.com/page");
    assert_eq!(reply.status, 200);
    let code = code_of(reply, BASE);
    let resolved = svc.get_original_url(&code);
    assert_eq!(resolved.status, 308);
    assert_eq!(resolved.location.as_deref(), Some("https://example.com/page"));
    assert!(matches!(resolved.body, Body::Empty));
}

#[test]
fn resolve_unknown_code_is_not_found() {
    let svc = Service::new(BASE.to_string());
    let reply = svc.get_original_url("nosuchcode");
    assert_eq!(reply.status, 404);
    assert_eq!(message_of(&reply), "URL not found");
    assert!(reply.location.is_none());
}

#[test]
fn shorten_rejects_malformed_url() {
    let mut svc = Service::new(BASE.to_string());
    for bad in ["not-a-url", "not a url"] {
        let reply = svc.shorten_url(bad);
        assert_eq!(reply.status, 400);
        assert_eq!(message_of(&reply), "Invalid URL format");
    }
    let after = svc.get_original_url("not-a-url");
    assert_eq!(after.status, 404);
}

#[test]
fn health_follows_store_reachability() {
    let mut svc = Service::new(BASE.to_string());
    let healthy = svc.health_check();
    assert_eq!(healthy.status, 200);
    assert_eq!(message_of(&healthy), "Healthy");
    svc.store.set_reachable(false);
    let unhealthy = svc.health_check();
    assert_eq!(unhealthy.status, 503);
    assert_eq!(message_of(&unhealthy), "Unhealthy");
}

#[test]
fn shorten_and_resolve_report_unavailable_store() {
    let mut svc = Service::new(BASE.to_string());
    svc.store.set_reachable(false);
    let shorten = svc.shorten_url("https://example.com/page");
    assert_eq!(shorten.status, 503);
    assert_eq!(message_of(&shorten), "Service temporarily unavailable");
    let resolve = svc.get_original_url("anything");
    assert_eq!(resolve.status, 503);
    assert_eq!(message_of(&resolve), "Service temporarily unavailable");
}

#[test]
fn repeated_resolve_is_consistent() {
    let mut svc = Service::new(BASE.to_string());
    let code = code_of(svc.shorten_url("https://example.com/a"), BASE);
    let first = svc.get_original_url(&code);
    let second = svc.get_original_url(&code);
    let third = svc.get_original_url(&code);
    assert_eq!(first.status, 308);
    assert_eq!(first.location, second.location);
    assert_eq!(second.location, third.location);
    assert_eq!(third.location.as_deref(), Some("https://example.com/a"));
}

#[test]
fn overwriting_a_key_retargets_resolution() {
    let mut store = MemStore::new();
    assert!(store.put("k", "https://old.example.com").is_ok());
    assert!(store.put("k", "https://new.example.com").is_ok());
    let got = store.get("k").unwrap();
    assert_eq!(got.as_deref(), Some("https://new.example.com"));
}

#[test]
fn two_shortens_of_same_original_each_resolve() {
    let mut svc = Service::new(BASE.to_string());
    let c1 = code_of(svc.shorten_url("https://example.com/page"), BASE);
    let c2 = code_of(svc.shorten_url("https://example.com/page"), BASE);
    let r1 = svc.get_original_url(&c1);
    let r2 = svc.get_original_url(&c2);
    assert_eq!(r1.status, 308);
    assert_eq!(r2.status, 308);
    assert_eq!(r1.location.as_deref(), Some("https://example.com/page"));
    assert_eq!(r2.location.as_deref(), Some("https://example.com/page"));
}

#[test]
fn error_responses_never_leak_internal_detail() {
    let query = AppError::StoreQuery.error_response();
    assert_eq!(query.status, 500);
    assert_eq!(message_of(&query), "Database error");
    let unavailable = AppError::StoreUnavailable.error_response();
    assert_eq!(unavailable.status, 503);
    assert_eq!(message_of(&unavailable), "Service temporarily unavailable");
    let invalid = AppError::InvalidUrl("Invalid URL format".to_string()).error_response();
    assert_eq!(invalid.status, 400);
    assert_eq!(message_of(&invalid), "Invalid URL format");
}

#[test]
fn outcome_replies_follow_store_results() {
    let ok = shorten_outcome_reply("https://example.com", BASE, "Ab3", Ok(()));
    assert_eq!(ok.status, 200);
    let (original, shortened) = shortened_of(ok);
    assert_eq!(original, "https://example.com");
    assert_eq!(shortened, "http://localhost:8082/Ab3");

    let query = shorten_outcome_reply("https://example.com", BASE, "Ab3", Err(StoreError::Query));
    assert_eq!(query.status, 500);
    let unavailable =
        shorten_outcome_reply("https://example.com", BASE, "Ab3", Err(StoreError::Unavailable));
    assert_eq!(unavailable.status, 503);

    let hit = resolve_outcome_reply(Ok(Some("https://example.com/x".to_string())));
    assert_eq!(hit.status, 308);
    assert_eq!(hit.location.as_deref(), Some("https://example.com/x"));
    let miss = resolve_outcome_reply(Ok(None));
    assert_eq!(miss.status, 404);
    let failed = resolve_outcome_reply(Err(StoreError::Query));
    assert_eq!(failed.status, 500);
    assert_eq!(message_of(&failed), "Database error");

    let healthy = health_outcome_reply(Ok(()));
    assert_eq!(healthy.status, 200);
    assert_eq!(message_of(&healthy), "Healthy");
    let down = health_outcome_reply(Err(StoreError::Unavailable));
    assert_eq!(down.status, 503);
    assert_eq!(message_of(&down), "Unhealthy");
}

#[test]
fn unreachable_store_reports_unavailable() {
    let mut store = MemStore::new();
    store.set_reachable(false);
    assert!(matches!(store.put("k", "v"), Err(StoreError::Unavailable)));
    assert!(matches!(store.get("k"), Err(StoreError::Unavailable)));
    assert!(matches!(store.ping(), Err(StoreError::Unavailable)));
    store.set_reachable(true);
    assert!(store.ping().is_ok());
}
