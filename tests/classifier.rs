use centerdevice::errors::ErrorKind;
use centerdevice::http::{check_status, general_err_handler, handle_error, Response, ResponseBody, StatusVerdict};

fn text_response(status: u16, body: &str) -> Response {
    Response { status, body: ResponseBody::Text(body.to_string()) }
}

#[test]
fn expected_status_passes_through() {
    let r = general_err_handler(text_response(200, "{\"id\":\"x\"}"), 200).unwrap();
    assert_eq!(r.status, 200);
    match r.body {
        ResponseBody::Text(t) => assert_eq!(t, "{\"id\":\"x\"}"),
        ResponseBody::Unreadable(_) => panic!("body lost"),
    }
}

#[test]
fn unauthorized_is_invalid_token() {
    let e = general_err_handler(text_response(401, "nope"), 200).unwrap_err();
    assert_eq!(e.kind, ErrorKind::ApiCallFailedInvalidToken(401));
    assert!(e.cause.is_none());
}

#[test]
fn too_many_requests_is_rate_limited() {
    let e = general_err_handler(text_response(429, ""), 200).unwrap_err();
    assert_eq!(*e.kind(), ErrorKind::ApiCallFailedTooManyRequests(429));
}

#[test]
fn server_error_carries_status_and_body() {
    let e = general_err_handler(text_response(500, "boom"), 200).unwrap_err();
    assert_eq!(e.kind, ErrorKind::ApiCallFailed(500, "boom".to_string()));
}

#[test]
fn unreadable_body_is_processing_failure() {
    let response = Response { status: 503, body: ResponseBody::Unreadable("connection reset".to_string()) };
    let e = general_err_handler(response, 200).unwrap_err();
    assert_eq!(e.kind, ErrorKind::FailedToProcessHttpResponse(503, "reading body".to_string()));
    assert_eq!(e.cause, Some("connection reset".to_string()));
}

#[test]
fn expected_status_wins_over_special_codes() {
    assert!(general_err_handler(text_response(401, ""), 401).is_ok());
    assert_eq!(check_status(429, 429), StatusVerdict::Expected);
}

#[test]
fn status_verdicts() {
    assert_eq!(check_status(200, 200), StatusVerdict::Expected);
    assert_eq!(check_status(401, 200), StatusVerdict::InvalidToken);
    assert_eq!(check_status(429, 201), StatusVerdict::TooManyRequests);
    assert_eq!(check_status(404, 200), StatusVerdict::Unexpected);
    assert_eq!(check_status(200, 201), StatusVerdict::Unexpected);
}

#[test]
fn handle_error_uses_body_text() {
    let e = handle_error(404, ResponseBody::Text("missing".to_string()));
    assert_eq!(e.kind, ErrorKind::ApiCallFailed(404, "missing".to_string()));
}
