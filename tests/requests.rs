use bytestashy::api_client::APIClient;
use bytestashy::auth::{LoginExchange, LoginPhase};
use bytestashy::errors::ByteStashyError;
use bytestashy::request::{base_url, Method, RequestBody};

fn client() -> APIClient {
    APIClient {
        api_url: "https://host".to_string(),
        api_key: "abc123".to_string(),
    }
}

#[test]
fn login_scenario_saves_endpoint_and_key() {
    let mut login = LoginExchange::new("https://host");
    let first = login.login_request("alice", "secret");
    assert_eq!(first.method, Method::Post);
    assert_eq!(first.url, "https://host/api/auth/login");
    match &first.body {
        RequestBody::Json(b) => assert_eq!(b, "{\"username\":\"alice\",\"password\":\"secret\"}"),
        _ => panic!("expected a JSON body"),
    }
    assert!(login.accept_login_response(200, "{\"token\":\"t\"}").is_ok());
    assert_eq!(login.phase, LoginPhase::AwaitingKey);
    let second = login.key_request("mytool");
    assert_eq!(second.url, "https://host/api/keys");
    assert_eq!(second.headers.len(), 1);
    assert_eq!(second.headers[0].name, "bytestashauth");
    assert_eq!(second.headers[0].value, "bearer t");
    match &second.body {
        RequestBody::Json(b) => assert_eq!(b, "{\"name\":\"mytool\"}"),
        _ => panic!("expected a JSON body"),
    }
    let cfg = login.accept_key_response(201, "{\"key\":\"abc123\"}").ok().unwrap();
    assert_eq!(cfg.api_url, "https://host");
    assert_eq!(cfg.api_key, "abc123");
    assert_eq!(login.phase, LoginPhase::Finished);
}

#[test]
fn login_rejected_never_reaches_key_issuance() {
    let mut login = LoginExchange::new("https://host/");
    assert_eq!(login.base, "https://host");
    match login.accept_login_response(401, "{\"token\":\"t\"}") {
        Err(ByteStashyError::Auth { message }) => {
            assert_eq!(message, "Invalid credentials (401 Unauthorized).")
        }
        _ => panic!("expected an auth error"),
    }
    assert_eq!(login.phase, LoginPhase::Finished);
}

#[test]
fn login_other_status_is_an_api_error() {
    let mut login = LoginExchange::new("https://host");
    assert!(matches!(
        login.accept_login_response(500, "down"),
        Err(ByteStashyError::Api { status: 500, .. })
    ));
    let mut login = LoginExchange::new("https://host");
    assert!(matches!(
        login.accept_login_response(200, "{\"user\":1}"),
        Err(ByteStashyError::Protocol { .. })
    ));
}

#[test]
fn key_refused_gives_no_credential() {
    let mut login = LoginExchange::new("https://host");
    assert!(login.accept_login_response(200, "{\"token\":\"t\"}").is_ok());
    match login.accept_key_response(200, "{\"key\":\"abc123\"}") {
        Err(ByteStashyError::Api { status, message }) => {
            assert_eq!(status, 200);
            assert_eq!(message, "{\"key\":\"abc123\"}");
        }
        _ => panic!("expected an api error"),
    }
    assert_eq!(login.phase, LoginPhase::Finished);
}

#[test]
fn base_url_drops_trailing_slashes() {
    assert_eq!(base_url("https://host///"), "https://host");
    assert_eq!(base_url("https://host/x"), "https://host/x");
    assert_eq!(base_url(""), "");
}

#[test]
fn snippet_urls_carry_the_id_and_key() {
    let c = client();
    let r = c.get_snippet(999999);
    assert_eq!(r.method, Method::Get);
    assert_eq!(r.url, "https://host/api/v1/snippets/999999");
    assert_eq!(r.headers[0].name, "x-api-key");
    assert_eq!(r.headers[0].value, "abc123");
    assert_eq!(c.delete_snippet(0).url, "https://host/api/v1/snippets/0");
    assert_eq!(c.delete_snippet(0).method, Method::Delete);
    assert_eq!(c.list().url, "https://host/api/v1/snippets");
}

#[test]
fn search_rejects_unknown_sort_locally() {
    match client().search_snippets("x", Some("invalid"), false) {
        Err(ByteStashyError::InvalidInput(m)) => {
            assert_eq!(m, "Sort must be one of: newest, oldest, alpha-asc, alpha-desc")
        }
        _ => panic!("expected invalid input"),
    }
}

#[test]
fn search_passes_sort_and_encodes_query() {
    let r = client().search_snippets("hello world&x", Some("newest"), true).ok().unwrap();
    assert_eq!(
        r.url,
        "https://host/api/v1/snippets/search?q=hello+world%26x&sort=newest&searchCode=true"
    );
    let r = client().search_snippets("a.b_c", None, false).ok().unwrap();
    assert_eq!(r.url, "https://host/api/v1/snippets/search?q=a.b_c");
    let r = client().search_snippets("é", Some("alpha-desc"), false).ok().unwrap();
    assert_eq!(r.url, "https://host/api/v1/snippets/search?q=%C3%A9&sort=alpha-desc");
}
