use centerdevice::client::download::{check_length, download_request, download_target, get_content_length, get_filename, Download};
use centerdevice::errors::ErrorKind;
use centerdevice::http::{Method, RequestBody};
use centerdevice::{Client, ClientCredentials, Token};

#[test]
fn download_of_declared_length_and_suggested_name() {
    let d = Download::new("doc-1".to_string(), "/tmp/out");
    let t = download_target(&d, Some(b"42"), Some(b"attachment; filename=\"doc.pdf\"")).ok().unwrap();
    assert_eq!(t.length, 42);
    assert_eq!(t.filename, "doc.pdf");
    assert_eq!(check_length(t.length, 42).unwrap(), 42);
}

#[test]
fn short_body_is_a_length_mismatch() {
    let e = check_length(42, 41).unwrap_err();
    assert_eq!(e.kind, ErrorKind::ContentLengthMismatch(42, 41));
}

#[test]
fn override_name_wins() {
    let d = Download::new("doc-1".to_string(), "/tmp/out").filename("mine.pdf");
    assert_eq!(d.dir(), "/tmp/out");
    let t = download_target(&d, Some(b"7"), None).ok().unwrap();
    assert_eq!(t.filename, "mine.pdf");
    assert_eq!(t.length, 7);
}

#[test]
fn content_length_parsing() {
    assert_eq!(get_content_length(Some(b"0")).unwrap(), 0);
    assert_eq!(get_content_length(Some(b"+17")).unwrap(), 17);
    assert_eq!(get_content_length(Some(b"18446744073709551615")).unwrap(), u64::MAX);
    for bad in [&b""[..], b"+", b"-1", b"12a", b" 1", b"18446744073709551616"] {
        let e = get_content_length(Some(bad)).unwrap_err();
        assert_eq!(e.kind, ErrorKind::FailedToGetContentLength);
    }
    assert_eq!(get_content_length(None).unwrap_err().kind, ErrorKind::FailedToGetContentLength);
}

#[test]
fn filename_parsing() {
    assert_eq!(get_filename(Some(b"attachment; filename=report.txt")).unwrap(), "report.txt");
    assert_eq!(get_filename(Some(b"inline; name=\"x\"; filename=\"a b.pdf\"")).unwrap(), "a b.pdf");
    assert_eq!(get_filename(Some(b"attachment")).unwrap_err().kind, ErrorKind::FailedToGetFilename);
    assert_eq!(get_filename(None).unwrap_err().kind, ErrorKind::FailedToGetFilename);
    let d = Download::new("doc-1".to_string(), "/tmp");
    assert_eq!(download_target(&d, Some(b"1"), None).err().unwrap().kind, ErrorKind::FailedToGetFilename);
    assert_eq!(download_target(&d, None, Some(b"attachment; filename=a")).err().unwrap().kind, ErrorKind::FailedToGetContentLength);
}

#[test]
fn download_request_targets_document() {
    let client = Client::with_token("example.com", ClientCredentials::new("id", "pw"), Token::new("tok".to_string(), "r".to_string()));
    let r = download_request(&client, &Download::new("doc-1".to_string(), "/tmp"));
    assert_eq!(r.method, Method::Get);
    assert_eq!(r.url, "https://api.example.com/v2/document/doc-1");
    assert!(matches!(r.body, RequestBody::Empty));
}
