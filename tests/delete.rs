use centerdevice::client::delete::{delete_request, delete_result, DeleteAction};
use centerdevice::errors::ErrorKind;
use centerdevice::http::{RequestBody, Response, ResponseBody};
use centerdevice::{Client, ClientCredentials, Token};

fn failed_ids(body: &str) -> Option<Vec<String>> {
    let v: serde_json::Value = serde_json::from_str(body).ok()?;
    let list = v.get("failed-documents")?.as_array()?;
    list.iter().map(|x| x.as_str().map(|s| s.to_string())).collect()
}

#[test]
fn partial_failure_is_an_error() {
    let body = "{\"failed-documents\":[\"id2\"]}";
    let response = Response { status: 204, body: ResponseBody::Text(body.to_string()) };
    let e = delete_result(response, failed_ids(body)).unwrap_err();
    assert_eq!(e.kind, ErrorKind::FailedDocuments(vec!["id2".to_string()]));
}

#[test]
fn clean_delete_succeeds() {
    let response = Response { status: 204, body: ResponseBody::Text(String::new()) };
    assert!(delete_result(response, failed_ids("")).is_ok());
}

#[test]
fn delete_other_status_is_classified() {
    let response = Response { status: 403, body: ResponseBody::Text("forbidden".to_string()) };
    let e = delete_result(response, None).unwrap_err();
    assert_eq!(e.kind, ErrorKind::ApiCallFailed(403, "forbidden".to_string()));
}

#[test]
fn delete_action_json() {
    let a = DeleteAction::new(vec!["id1".to_string(), "id2".to_string()]);
    assert_eq!(a.to_json(), "{\"action\":\"delete\",\"params\":{\"documents\":[\"id1\",\"id2\"]}}");
    assert_eq!(DeleteAction::new(vec![]).to_json(), "{\"action\":\"delete\",\"params\":{\"documents\":[]}}");
}

#[test]
fn delete_request_body() {
    let client = Client::with_token("example.com", ClientCredentials::new("id", "pw"), Token::new("tok".to_string(), "r".to_string()));
    let r = delete_request(&client, vec!["id1".to_string(), "id2".to_string()]);
    assert_eq!(r.url, "https://api.example.com/v2/documents");
    match r.body {
        RequestBody::Bytes(b) => assert_eq!(b, b"{\"action\":\"delete\",\"params\":{\"documents\":[\"id1\",\"id2\"]}}".to_vec()),
        _ => panic!("expected a byte body"),
    }
}
