use greader::error::ReaderError;
use greader::session::Method;
use greader::session::NextAction;
use greader::session::Session;

fn fresh_session(server: &str) -> Session {
    Session::try_new("user".to_string(), "secret".to_string(), server)
        .expect("server URL should parse")
}

#[test]
fn trailing_slash_is_stripped() {
    let a = fresh_session("http://example.com/api/greader.php/");
    let b = fresh_session("http://example.com/api/greader.php");
    assert_eq!(a.base_url, b.base_url);
    assert_eq!(a.base_url, "http://example.com/api/greader.php");
}

#[test]
fn base_url_is_normalized_by_the_parser() {
    let s = fresh_session("HTTP://EXAMPLE.COM:80");
    assert_eq!(s.base_url, "http://example.com");
}

#[test]
fn malformed_url_is_a_config_error() {
    let r = Session::try_new("u".to_string(), "p".to_string(), "not a url");
    assert_eq!(r.unwrap_err(), ReaderError::Config);
    let r = Session::try_new("u".to_string(), "p".to_string(), "mailto:someone@example.com");
    assert_eq!(r.unwrap_err(), ReaderError::Config);
}

#[test]
fn fresh_session_has_no_tokens() {
    let s = fresh_session("http://example.com");
    assert!(s.auth_token.is_none());
    assert!(s.write_token.is_none());
}

#[test]
fn fresh_session_logs_in_before_any_operation() {
    let s = fresh_session("http://example.com/api");
    let steps = [
        s.write_token_step(),
        s.list_unread_step(&None),
        s.mark_read_step("item-1"),
        s.unread_count_step(),
    ];
    for step in steps {
        match step {
            NextAction::Login(req) => {
                assert_eq!(req.method, Method::Post);
                assert_eq!(req.url, "http://example.com/api/accounts/ClientLogin");
                assert_eq!(req.form.len(), 2);
                assert_eq!(req.form[0], ("Email".to_string(), "user".to_string()));
                assert_eq!(req.form[1], ("Passwd".to_string(), "secret".to_string()));
                assert!(req.auth.is_none());
            }
            other => panic!("expected a login request, got {:?}", other),
        }
    }
}

#[test]
fn login_extracts_the_auth_token() {
    let mut s = fresh_session("http://example.com");
    let r = s.apply_login_response("SID=xxx\nAuth=abc123\n");
    assert!(r.is_ok());
    assert_eq!(s.auth_token.as_deref(), Some("abc123"));
}

#[test]
fn login_overwrites_a_previous_token() {
    let mut s = fresh_session("http://example.com");
    s.apply_login_response("Auth=first\n").unwrap();
    s.apply_login_response("Auth=second\n").unwrap();
    assert_eq!(s.auth_token.as_deref(), Some("second"));
}

#[test]
fn login_without_token_is_an_error() {
    let mut s = fresh_session("http://example.com");
    let r = s.apply_login_response("Error=BadAuthentication\n");
    assert_eq!(r.unwrap_err(), ReaderError::TokenNotFound);
    assert!(s.auth_token.is_none());
}

#[test]
fn write_token_response_loses_one_trailing_newline() {
    let mut s = fresh_session("http://example.com");
    let t = s.apply_write_token_response("wT123\n".to_string());
    assert_eq!(t, "wT123");
    assert_eq!(s.write_token.as_deref(), Some("wT123"));
    let t = s.apply_write_token_response("plain".to_string());
    assert_eq!(t, "plain");
    assert_eq!(s.write_token.as_deref(), Some("plain"));
}

#[test]
fn authenticated_steps_carry_the_auth_header() {
    let mut s = fresh_session("http://example.com");
    s.apply_login_response("Auth=tok9\n").unwrap();
    match s.unread_count_step() {
        NextAction::Execute(req) => {
            assert_eq!(req.method, Method::Get);
            assert_eq!(req.url, "http://example.com/reader/api/0/unread-count");
            assert_eq!(req.auth.as_deref(), Some("GoogleLogin auth=tok9"));
            assert!(req.form.is_empty());
        }
        other => panic!("expected the unread-count request, got {:?}", other),
    }
    match s.write_token_step() {
        NextAction::Execute(req) => {
            assert_eq!(req.url, "http://example.com/reader/api/0/token");
            assert_eq!(req.auth.as_deref(), Some("GoogleLogin auth=tok9"));
        }
        other => panic!("expected the token request, got {:?}", other),
    }
}

#[test]
fn mark_read_fetches_the_write_token_first() {
    let mut s = fresh_session("http://example.com");
    s.apply_login_response("Auth=a1\n").unwrap();
    match s.mark_read_step("item-7") {
        NextAction::FetchWriteToken(req) => {
            assert_eq!(req.method, Method::Get);
            assert_eq!(req.url, "http://example.com/reader/api/0/token");
        }
        other => panic!("expected a write-token fetch, got {:?}", other),
    }
    s.apply_write_token_response("w1\n".to_string());
    match s.mark_read_step("item-7") {
        NextAction::Execute(req) => {
            assert_eq!(req.method, Method::Post);
            assert_eq!(req.url, "http://example.com/reader/api/0/edit-tag");
            assert_eq!(
                req.form[0],
                ("a".to_string(), "user/-/state/com.google/read".to_string())
            );
            assert_eq!(req.form[1], ("T".to_string(), "w1".to_string()));
            assert_eq!(req.form[2], ("i".to_string(), "item-7".to_string()));
        }
        other => panic!("expected the edit-tag request, got {:?}", other),
    }
}

#[test]
fn tokens_are_never_interchanged() {
    let mut s = fresh_session("http://example.com");
    s.apply_login_response("Auth=AAA\n").unwrap();
    s.apply_write_token_response("WWW\n".to_string());
    match s.mark_read_step("x") {
        NextAction::Execute(req) => {
            let header = req.auth.as_deref().unwrap();
            assert_eq!(header, "GoogleLogin auth=AAA");
            assert!(!header.contains("WWW"));
            assert_eq!(req.form[1], ("T".to_string(), "WWW".to_string()));
            assert_ne!(req.form[1].1, "AAA");
        }
        other => panic!("expected the edit-tag request, got {:?}", other),
    }
}

#[test]
fn list_query_places_the_cursor_first() {
    let mut s = fresh_session("http://example.com/api");
    s.apply_login_response("Auth=t\n").unwrap();
    match s.list_unread_step(&None) {
        NextAction::Execute(req) => {
            assert_eq!(
                req.url,
                "http://example.com/api/reader/api/0/stream/contents/user/-/state/com.google/reading-list?r=n&xt=user/-/state/com.google/read"
            );
        }
        other => panic!("expected the list request, got {:?}", other),
    }
    match s.list_unread_step(&Some("tok".to_string())) {
        NextAction::Execute(req) => {
            assert!(req.url.contains("c=tok&"));
            assert_eq!(
                req.url,
                "http://example.com/api/reader/api/0/stream/contents/user/-/state/com.google/reading-list?c=tok&r=n&xt=user/-/state/com.google/read"
            );
        }
        other => panic!("expected the list request, got {:?}", other),
    }
}
