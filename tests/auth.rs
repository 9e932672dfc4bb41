use centerdevice::client::auth::{token_from_response, Code, Token};
use centerdevice::errors::ErrorKind;
use centerdevice::http::{Authorization, Method, RequestBody, Response, ResponseBody};
use centerdevice::{Client, ClientCredentials};

fn ok_response() -> Response {
    Response { status: 200, body: ResponseBody::Text("{}".to_string()) }
}

fn form_of(body: &RequestBody) -> Vec<(String, String)> {
    match body {
        RequestBody::Form(f) => f.clone(),
        _ => panic!("not a form"),
    }
}

fn pairs(ps: &[(&str, &str)]) -> Vec<(String, String)> {
    ps.iter().map(|(k, v)| (k.to_string(), v.to_string())).collect()
}

#[test]
fn token_new_has_only_access_and_refresh() {
    let t = Token::new("acc".to_string(), "ref".to_string());
    assert_eq!(t.access_token(), "acc");
    assert_eq!(t.refresh_token(), "ref");
    assert_eq!(t.token_type(), None);
    assert_eq!(t.expires_in(), None);
}

#[test]
fn token_from_parts_keeps_every_field() {
    let t = Token::from_parts(Some("bearer".to_string()), "a1".to_string(), Some(3600), "r1".to_string());
    assert_eq!(t.token_type(), Some("bearer"));
    assert_eq!(t.access_token(), "a1");
    assert_eq!(t.expires_in(), Some(3600));
    assert_eq!(t.refresh_token(), "r1");
}

#[test]
fn authorization_url_request() {
    let client = Client::new("example.com", ClientCredentials::new("cid", "secret"));
    let r = client.authorization_request("http://localhost:9876");
    assert_eq!(r.method, Method::Get);
    assert_eq!(r.url, "https://auth.example.com/authorize");
    assert!(matches!(r.authorization, Authorization::Anonymous));
    assert_eq!(
        form_of(&r.body),
        pairs(&[("client_id", "cid"), ("redirect_uri", "http://localhost:9876"), ("response_type", "code")])
    );
}

#[test]
fn code_exchange_request() {
    let client = Client::new("example.com", ClientCredentials::new("cid", "secret"));
    let code = Code::new("the-code".to_string());
    assert_eq!(code.code(), "the-code");
    let r = client.token_request(&code, "http://localhost:9876");
    assert_eq!(r.method, Method::Post);
    assert_eq!(r.url, "https://auth.example.com/token");
    match &r.authorization {
        Authorization::Basic { user, password } => {
            assert_eq!(user, "cid");
            assert_eq!(password, "secret");
        },
        _ => panic!("expected basic authentication"),
    }
    assert_eq!(
        form_of(&r.body),
        pairs(&[("grant_type", "authorization_code"), ("redirect_uri", "http://localhost:9876"), ("code", "the-code")])
    );
}

#[test]
fn exchange_yields_token_as_returned() {
    let client = Client::new("example.com", ClientCredentials::new("cid", "secret"));
    let decoded = Token::from_parts(Some("bearer".to_string()), "A".to_string(), Some(60), "R".to_string());
    let authorized = client.authorize(ok_response(), Some(decoded)).ok().unwrap();
    let t = authorized.token();
    assert_eq!(t.token_type(), Some("bearer"));
    assert_eq!(t.access_token(), "A");
    assert_eq!(t.expires_in(), Some(60));
    assert_eq!(t.refresh_token(), "R");
}

#[test]
fn exchange_failure_stores_nothing() {
    let client = Client::new("example.com", ClientCredentials::new("cid", "secret"));
    let r = client.authorize(Response { status: 401, body: ResponseBody::Text(String::new()) }, None);
    assert_eq!(r.err().unwrap().kind, ErrorKind::ApiCallFailedInvalidToken(401));
}

#[test]
fn undecodable_token_body() {
    let e = token_from_response(ok_response(), None).unwrap_err();
    assert_eq!(e.kind, ErrorKind::FailedToProcessHttpResponse(200, "decoding token".to_string()));
}

#[test]
fn refresh_request_uses_refresh_token() {
    let token = Token::new("old-access".to_string(), "old-refresh".to_string());
    let client = Client::with_token("example.com", ClientCredentials::new("cid", "secret"), token);
    let r = client.refresh_request();
    assert_eq!(r.url, "https://auth.example.com/token");
    assert_eq!(form_of(&r.body), pairs(&[("grant_type", "refresh_token"), ("refresh_token", "old-refresh")]));
}

#[test]
fn refresh_replaces_whole_token() {
    let token = Token::from_parts(Some("bearer".to_string()), "old-access".to_string(), Some(10), "old-refresh".to_string());
    let mut client = Client::with_token("example.com", ClientCredentials::new("cid", "secret"), token);
    let fresh = Token::new("new-access".to_string(), "new-refresh".to_string());
    client.apply_refresh(ok_response(), Some(fresh)).unwrap();
    let t = client.token();
    assert_eq!(t.access_token(), "new-access");
    assert_eq!(t.refresh_token(), "new-refresh");
    assert_eq!(t.token_type(), None);
    assert_eq!(t.expires_in(), None);
}

#[test]
fn failed_refresh_keeps_old_token() {
    let token = Token::new("old-access".to_string(), "old-refresh".to_string());
    let mut client = Client::with_token("example.com", ClientCredentials::new("cid", "secret"), token);
    let fresh = Token::new("new-access".to_string(), "new-refresh".to_string());
    let e = client.apply_refresh(Response { status: 500, body: ResponseBody::Text("down".to_string()) }, Some(fresh)).unwrap_err();
    assert_eq!(e.kind, ErrorKind::ApiCallFailed(500, "down".to_string()));
    assert_eq!(client.token().access_token(), "old-access");
    assert_eq!(client.token().refresh_token(), "old-refresh");
}

#[test]
fn credentials_accessors() {
    let c = ClientCredentials::new("id", "pw");
    assert_eq!(c.client_id(), "id");
    assert_eq!(c.client_secret(), "pw");
}
