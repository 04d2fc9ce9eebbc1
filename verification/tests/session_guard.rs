use sambro_server::handlers::auth::{end_session, logout};
use sambro_server::middlewares::session::{authorize_at, session_middleware, session_token};
use sambro_server::models::api::ApiError;
use sambro_server::models::session::{SessionManager, SESSION_COOKIE};

fn lines(texts: &[&str]) -> Vec<String> {
    texts.iter().map(|t| t.to_string()).collect()
}

#[test]
fn cookie_name() {
    assert_eq!(SESSION_COOKIE, "sambro_cookie");
}

#[test]
fn token_is_read_from_the_cookie() {
    assert_eq!(session_token(&lines(&["sambro_cookie=01ABC"])), Some("01ABC".to_string()));
}

#[test]
fn token_is_found_among_other_cookies() {
    let headers = lines(&["theme=dark; sambro_cookie=01ABC; lang=en"]);
    assert_eq!(session_token(&headers), Some("01ABC".to_string()));
}

#[test]
fn token_is_percent_decoded() {
    assert_eq!(session_token(&lines(&["sambro_cookie=a%20b"])), Some("a b".to_string()));
}

#[test]
fn request_without_cookie_headers_has_no_token() {
    assert_eq!(session_token(&Vec::new()), None);
}

#[test]
fn request_with_other_cookies_has_no_token() {
    assert_eq!(session_token(&lines(&["theme=dark; lang=en"])), None);
    assert_eq!(session_token(&lines(&["sambro_cookie"])), None);
    assert_eq!(session_token(&lines(&["sambro_cookiex=1"])), None);
    assert_eq!(session_token(&lines(&[""])), None);
}

#[test]
fn header_that_is_no_header_text_has_no_token() {
    assert_eq!(session_token(&lines(&["sambro_cookie=a\nb"])), None);
}

#[test]
fn last_header_with_the_cookie_decides() {
    let headers = lines(&["sambro_cookie=first", "sambro_cookie=second", "theme=dark"]);
    assert_eq!(session_token(&headers), Some("second".to_string()));
    let headers = lines(&["sambro_cookie=first; sambro_cookie=later"]);
    assert_eq!(session_token(&headers), Some("later".to_string()));
}

#[test]
fn guard_turns_away_a_request_without_token() {
    let mut store = SessionManager::new();
    store.add_session_at("S1".to_string(), "user-1".to_string(), 1_000);
    assert_eq!(authorize_at(&mut store, None, 1_000), Err(ApiError::Unauthorized));
}

#[test]
fn guard_turns_away_an_unknown_token() {
    let mut store = SessionManager::new();
    store.add_session_at("S1".to_string(), "user-1".to_string(), 1_000);
    assert_eq!(
        authorize_at(&mut store, Some("S2".to_string()), 1_000),
        Err(ApiError::Unauthorized)
    );
}

#[test]
fn guard_turns_away_a_deleted_session() {
    let mut store = SessionManager::new();
    store.add_session_at("S1".to_string(), "user-1".to_string(), 1_000);
    store.delete_session(&"S1".to_string());
    assert_eq!(
        authorize_at(&mut store, Some("S1".to_string()), 1_000),
        Err(ApiError::Unauthorized)
    );
}

#[test]
fn guard_turns_away_an_expired_session() {
    let mut store = SessionManager::new();
    store.add_session_at("S1".to_string(), "user-1".to_string(), 1_000);
    assert_eq!(
        authorize_at(&mut store, Some("S1".to_string()), 3_601_000),
        Err(ApiError::Unauthorized)
    );
    // and the session is gone for good
    assert_eq!(
        authorize_at(&mut store, Some("S1".to_string()), 1_000),
        Err(ApiError::Unauthorized)
    );
}

#[test]
fn guard_lets_a_live_session_through() {
    let mut store = SessionManager::new();
    store.add_session_at("S1".to_string(), "user-1".to_string(), 1_000);
    assert_eq!(
        authorize_at(&mut store, Some("S1".to_string()), 3_600_999),
        Ok("user-1".to_string())
    );
}

#[test]
fn every_refusal_of_the_guard_is_the_same() {
    let mut store = SessionManager::new();
    store.add_session_at("gone".to_string(), "user-1".to_string(), 1_000);
    store.add_session_at("old".to_string(), "user-2".to_string(), 0);
    store.delete_session(&"gone".to_string());
    let no_cookie = authorize_at(&mut store, None, 4_000_000);
    let deleted = authorize_at(&mut store, Some("gone".to_string()), 4_000_000);
    let expired = authorize_at(&mut store, Some("old".to_string()), 4_000_000);
    assert_eq!(no_cookie, Err(ApiError::Unauthorized));
    assert_eq!(no_cookie, deleted);
    assert_eq!(deleted, expired);
    let refusal = no_cookie.unwrap_err();
    assert_eq!(refusal.status(), 401);
}

#[test]
fn middleware_reads_cookie_and_clock() {
    let mut store = SessionManager::new();
    let session = store.add_session("user-1".to_string());
    let cookie = format!("theme=dark; sambro_cookie={}", session.id);
    assert_eq!(session_middleware(&mut store, &vec![cookie.clone()]), Ok("user-1".to_string()));
    assert_eq!(session_middleware(&mut store, &Vec::new()), Err(ApiError::Unauthorized));
    assert_eq!(
        session_middleware(&mut store, &lines(&["sambro_cookie=01ARZ3NDEKTSV4RRFFQ69G5FAV"])),
        Err(ApiError::Unauthorized)
    );
    store.delete_session(&session.id);
    assert_eq!(session_middleware(&mut store, &vec![cookie]), Err(ApiError::Unauthorized));
}

#[test]
fn middleware_turns_away_a_session_that_expired_long_ago() {
    let mut store = SessionManager::new();
    store.add_session_at("S1".to_string(), "user-1".to_string(), 0);
    assert_eq!(
        session_middleware(&mut store, &lines(&["sambro_cookie=S1"])),
        Err(ApiError::Unauthorized)
    );
}

#[test]
fn logout_without_cookie_fails() {
    let mut store = SessionManager::new();
    store.add_session_at("S1".to_string(), "user-1".to_string(), 1_000);
    let fault = logout(&mut store, &Vec::new()).expect_err("no cookie");
    assert_eq!(fault, ApiError::SessionCookieMissing);
    assert_eq!(fault.status(), 500);
    assert_eq!(fault.message().message, "Error logging out");
    assert_eq!(logout(&mut store, &lines(&["theme=dark"])), Err(ApiError::SessionCookieMissing));
    assert!(store.get_session_at(&"S1".to_string(), 1_000).is_some());
}

#[test]
fn logout_ends_the_session() {
    let mut store = SessionManager::new();
    store.add_session_at("S1".to_string(), "user-1".to_string(), 1_000);
    store.add_session_at("S2".to_string(), "user-1".to_string(), 1_000);
    assert_eq!(logout(&mut store, &lines(&["sambro_cookie=S1"])), Ok(()));
    assert!(store.get_session_at(&"S1".to_string(), 1_000).is_none());
    assert!(store.get_session_at(&"S2".to_string(), 1_000).is_some());
}

#[test]
fn logout_twice_succeeds_twice() {
    let mut store = SessionManager::new();
    store.add_session_at("S1".to_string(), "user-1".to_string(), 1_000);
    assert_eq!(logout(&mut store, &lines(&["sambro_cookie=S1"])), Ok(()));
    assert_eq!(logout(&mut store, &lines(&["sambro_cookie=S1"])), Ok(()));
    assert_eq!(logout(&mut store, &lines(&["sambro_cookie=never-there"])), Ok(()));
}

#[test]
fn ending_a_session_by_token() {
    let mut store = SessionManager::new();
    store.add_session_at("S1".to_string(), "user-1".to_string(), 1_000);
    assert_eq!(end_session(&mut store, None), Err(ApiError::SessionCookieMissing));
    assert!(store.get_session_at(&"S1".to_string(), 1_000).is_some());
    assert_eq!(end_session(&mut store, Some("S1".to_string())), Ok(()));
    assert!(store.get_session_at(&"S1".to_string(), 1_000).is_none());
}
