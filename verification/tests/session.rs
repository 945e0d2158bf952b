//! The session state machine: login cookie capture, logout clearing, and
//! the dispatcher's transport values.

use qbapi::auth::login_request;
use qbapi::request::{ApiRequest, Arguments, Method};
use qbapi::{Client, Error};

fn client() -> Client {
    Client::new("http://localhost:8080").expect("base URL must parse")
}

#[test]
fn new_client_is_unauthenticated() {
    let c = client();
    assert_eq!(c.cookie(), "");
}

#[test]
fn new_client_rejects_garbage_url() {
    let r = Client::new("not a url at all");
    assert!(matches!(r, Err(Error::UrlError)));
}

#[test]
fn new_client_joins_api_prefix() {
    let c = client();
    assert_eq!(c.base_url(), "http://localhost:8080/api/v2/");
}

#[test]
fn login_success_captures_cookie() {
    let mut c = client();
    let r = c.login_response(200, Some("SID=abc123; path=/"));
    assert!(r.is_ok());
    assert_eq!(c.cookie(), "SID=abc123");
}

#[test]
fn login_cookie_without_semicolon_is_kept_whole() {
    let mut c = client();
    let r = c.login_response(200, Some("SID=xyz"));
    assert!(r.is_ok());
    assert_eq!(c.cookie(), "SID=xyz");
}

#[test]
fn login_missing_set_cookie_fails_and_leaves_session() {
    let mut c = client();
    let r = c.login_response(200, None);
    assert!(matches!(r, Err(Error::NoSetCookie)));
    assert_eq!(c.cookie(), "");
}

#[test]
fn login_empty_cookie_value_is_no_sid() {
    let mut c = client();
    let r = c.login_response(200, Some("; path=/"));
    assert!(matches!(r, Err(Error::NoSID)));
    assert_eq!(c.cookie(), "");
}

#[test]
fn login_403_is_banned_regardless_of_headers() {
    let mut c = client();
    assert!(matches!(c.login_response(403, None), Err(Error::Banned)));
    assert!(matches!(
        c.login_response(403, Some("SID=abc123; path=/")),
        Err(Error::Banned)
    ));
    assert_eq!(c.cookie(), "");
}

#[test]
fn login_other_status_is_wrong_status() {
    let mut c = client();
    let r = c.login_response(500, Some("SID=abc123"));
    assert!(matches!(r, Err(Error::WrongStatusCode)));
    assert_eq!(c.cookie(), "");
}

#[test]
fn logout_clears_cookie_on_success() {
    let mut c = client();
    c.login_response(200, Some("SID=abc123; path=/")).unwrap();
    let r = c.logout_response(Some(200));
    assert!(r.is_ok());
    assert_eq!(c.cookie(), "");
}

#[test]
fn logout_clears_cookie_on_bad_status() {
    let mut c = client();
    c.login_response(200, Some("SID=abc123; path=/")).unwrap();
    let r = c.logout_response(Some(500));
    assert!(matches!(r, Err(Error::WrongStatusCode)));
    assert_eq!(c.cookie(), "");
}

#[test]
fn logout_clears_cookie_on_transport_failure() {
    let mut c = client();
    c.login_response(200, Some("SID=abc123; path=/")).unwrap();
    let r = c.logout_response(None);
    assert!(matches!(r, Err(Error::Nc)));
    assert_eq!(c.cookie(), "");
}

#[test]
fn login_request_body_is_the_credential_form() {
    let r = login_request("admin", "adminadmin");
    assert!(matches!(r.method, Method::Login));
    match r.arguments {
        Some(Arguments::Form(f)) => assert_eq!(f, "username=admin&password=adminadmin"),
        _ => panic!("login arguments must be a form body"),
    }
}

#[test]
fn request_parts_carry_url_cookie_origin_and_body() {
    let mut c = client();
    c.login_response(200, Some("SID=s3cret; path=/")).unwrap();
    let req = ApiRequest {
        method: Method::Version,
        arguments: None,
    };
    let parts = c.request_parts(&req);
    assert_eq!(parts.url, "http://localhost:8080/api/v2/app/version");
    assert_eq!(parts.cookie, "SID=s3cret");
    assert_eq!(parts.origin, "http://localhost:8080");
    assert_eq!(parts.body, "");
}

#[test]
fn request_parts_send_empty_cookie_too() {
    let c = client();
    let req = c.logout_request();
    let parts = c.request_parts(&req);
    assert_eq!(parts.url, "http://localhost:8080/api/v2/auth/logout");
    assert_eq!(parts.cookie, "");
    assert_eq!(parts.body, "");
}

#[test]
fn request_parts_use_form_body_verbatim() {
    let c = client();
    let req = ApiRequest {
        method: Method::BanPeers,
        arguments: Some(Arguments::Form(String::from("peers=10.0.0.1:6881"))),
    };
    let parts = c.request_parts(&req);
    assert_eq!(parts.url, "http://localhost:8080/api/v2/transfer/banPeers");
    assert_eq!(parts.body, "peers=10.0.0.1:6881");
}
