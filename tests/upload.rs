use centerdevice::client::multipart::generate_boundary;
use centerdevice::client::upload::{upload_request, upload_result, DocumentMetadata, EmptyActions, Upload};
use centerdevice::errors::ErrorKind;
use centerdevice::http::{Authorization, Method, RequestBody, Response, ResponseBody};
use centerdevice::{Client, ClientCredentials, Token};

const A_TXT_BOUNDARY: &str = "Boundary_18b7cb099a9ea3f50ba899b5ba81e0d377a5f3b16f8f6eeb8b3e58cd4692b993";

#[test]
fn boundary_is_sha256_hex_of_name() {
    assert_eq!(generate_boundary(b"a.txt"), A_TXT_BOUNDARY);
    assert_eq!(
        generate_boundary(b""),
        "Boundary_e3b0c44298fc1c149afbf4c8996fb92427ae41e4649b934ca495991b7852b855"
    );
}

#[test]
fn boundary_is_deterministic_and_separates_names() {
    assert_eq!(generate_boundary(b"report.pdf"), generate_boundary(b"report.pdf"));
    assert_ne!(generate_boundary(b"a.txt"), generate_boundary(b"b.txt"));
    assert_eq!(
        generate_boundary(b"b.txt"),
        "Boundary_ffa0da5d885fba09d903c782713b6b098c8cf21f56a3a35d9aa920613220d2e1"
    );
}

#[test]
fn metadata_of_small_titled_upload() {
    let u = Upload::new("a.txt", 10, "text/plain").ok().unwrap().title("T");
    let json = DocumentMetadata::from_upload(&u).to_json();
    assert_eq!(
        json,
        "{\"document\":{\"filename\":\"a.txt\",\"size\":10,\"title\":\"T\"},\"actions\":{\"add-tag\":[],\"add-to-collection\":[]}}"
    );
    let v: serde_json::Value = serde_json::from_str(&json).unwrap();
    assert_eq!(v["document"]["size"].as_u64(), Some(10));
    assert_eq!(v["document"]["title"].as_str(), Some("T"));
}

#[test]
fn metadata_omitting_empty_lists() {
    let u = Upload::with_title("a.txt", 10, "text/plain", "T").ok().unwrap().empty_actions(EmptyActions::Omit);
    let json = DocumentMetadata::from_upload(&u).to_json();
    assert_eq!(json, "{\"document\":{\"filename\":\"a.txt\",\"size\":10,\"title\":\"T\"}}");
}

#[test]
fn metadata_with_everything() {
    let u = Upload::new("r\"x.pdf", 1234567, "application/pdf")
        .ok()
        .unwrap()
        .author("Ann")
        .tags(vec!["t1".to_string(), "t2".to_string()])
        .collections(vec!["c1".to_string()])
        .empty_actions(EmptyActions::Omit);
    let json = DocumentMetadata::from_upload(&u).to_json();
    assert_eq!(
        json,
        "{\"document\":{\"filename\":\"r\\\"x.pdf\",\"size\":1234567,\"author\":\"Ann\"},\"actions\":{\"add-tag\":[\"t1\",\"t2\"],\"add-to-collection\":[\"c1\"]}}"
    );
}

#[test]
fn metadata_only_collections() {
    let u = Upload::new("f", 0, "text/plain")
        .ok()
        .unwrap()
        .collections(vec!["c1".to_string()])
        .empty_actions(EmptyActions::Omit);
    let json = DocumentMetadata::from_upload(&u).to_json();
    assert_eq!(json, "{\"document\":{\"filename\":\"f\",\"size\":0},\"actions\":{\"add-to-collection\":[\"c1\"]}}");
}

#[test]
fn invalid_mime_type_is_refused() {
    let e = Upload::new("a.txt", 10, "not a mime").err().unwrap();
    assert_eq!(e.kind, ErrorKind::FailedToPrepareHttpRequest("not a mime".to_string()));
}

#[test]
fn upload_request_body_and_headers() {
    let client = Client::with_token("example.com", ClientCredentials::new("id", "pw"), Token::new("tok".to_string(), "ref".to_string()));
    let u = Upload::new("a.txt", 10, "text/plain").ok().unwrap().title("T");
    let r = upload_request(&client, &u, b"0123456789".to_vec());
    assert_eq!(r.method, Method::Post);
    assert_eq!(r.url, "https://api.example.com/v2/documents");
    assert!(matches!(&r.authorization, Authorization::Bearer(t) if t == "tok"));
    assert_eq!(
        r.headers,
        vec![
            ("Content-Type".to_string(), format!("multipart/form-data; boundary={}", A_TXT_BOUNDARY)),
            ("Accept".to_string(), "application/json; charset=utf-8".to_string()),
        ]
    );
    let expected = format!(
        "--{b}\r\nContent-Type: application/json\r\nContent-Disposition: form-data; name=\"metadata\"\r\n\r\n{json}\r\n--{b}\r\nContent-Type: text/plain\r\nContent-Disposition: form-data; name=\"document\"; filename=\"a.txt\"\r\n\r\n0123456789\r\n--{b}--",
        b = A_TXT_BOUNDARY,
        json = "{\"document\":{\"filename\":\"a.txt\",\"size\":10,\"title\":\"T\"},\"actions\":{\"add-tag\":[],\"add-to-collection\":[]}}"
    );
    match r.body {
        RequestBody::Bytes(b) => assert_eq!(String::from_utf8(b).unwrap(), expected),
        _ => panic!("expected a byte body"),
    }
}

#[test]
fn upload_result_reads_id_on_created() {
    let created = Response { status: 201, body: ResponseBody::Text("{\"id\":\"doc-1\"}".to_string()) };
    assert_eq!(upload_result(created, Some("doc-1".to_string())).unwrap(), "doc-1");
    let ok_but_not_created = Response { status: 200, body: ResponseBody::Text("x".to_string()) };
    let e = upload_result(ok_but_not_created, Some("doc-1".to_string())).unwrap_err();
    assert_eq!(e.kind, ErrorKind::ApiCallFailed(200, "x".to_string()));
    let no_id = Response { status: 201, body: ResponseBody::Text("{}".to_string()) };
    let e = upload_result(no_id, None).unwrap_err();
    assert_eq!(e.kind, ErrorKind::FailedToProcessHttpResponse(201, "decoding id".to_string()));
}

#[test]
fn mime_type_is_normalized_by_the_parser() {
    let u = Upload::new("a.txt", 1, "Text/Plain").ok().unwrap();
    assert_eq!(u.mime_type(), "text/plain");
}

#[test]
fn upload_accessors() {
    let u = Upload::new("a.txt", 10, "text/plain").ok().unwrap();
    assert_eq!(u.filename(), "a.txt");
    assert_eq!(u.size(), 10);
}
