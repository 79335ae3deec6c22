//! Tests of the response model and the result adapters around it.

use server::{
    DummyLogger, MapResponse, NoDisplayError, ProcessNotRunningError, RequestError, Response,
    ResponseContent, ResultExt,
};

#[test]
fn response_message_round_trip() {
    // Serialize a message response and read the bytes back as headers and
    // body.
    let bytes = Response::from_message(400, "x".to_string()).to_bytes();
    let text = String::from_utf8(bytes).unwrap();
    let (head, body) = text.split_once("\r\n\r\n").unwrap();
    let mut lines = head.lines();
    assert_eq!(lines.next().unwrap(), "HTTP/1.1 400");
    let headers: Vec<(&str, &str)> = lines.map(|l| l.split_once(": ").unwrap()).collect();
    assert!(headers.contains(&("Content-Type", "text/plain; charset=utf-8")));
    assert!(headers.contains(&("Content-Length", "1")));
    assert_eq!(body, "x");
}

#[test]
fn status_only_response_has_no_content_type() {
    let bytes = Response::from_status(404).to_bytes();
    assert_eq!(bytes, b"HTTP/1.1 404\r\nContent-Length: 0\r\n\r\n".to_vec());
}

#[test]
fn png_response_bytes() {
    let bytes = Response::from_png(vec![1, 2, 3]).to_bytes();
    let expected: Vec<u8> =
        b"HTTP/1.1 200\r\nContent-Type: image/png\r\nContent-Length: 3\r\n\r\n\x01\x02\x03"
            .to_vec();
    assert_eq!(bytes, expected);
}

#[test]
fn response_constructors() {
    let r = Response::from_status(204);
    assert_eq!(r.status, 204);
    assert_eq!(r.content, ResponseContent::Empty);

    let r = Response::from_message(500, "boom".to_string());
    assert_eq!(r.status, 500);
    assert_eq!(r.content, ResponseContent::Text("boom".to_string()));

    let r = Response::from_png(vec![9]);
    assert_eq!(r.status, 200);
    assert_eq!(r.content, ResponseContent::Png(vec![9]));
}

#[test]
fn error_responses_carry_messages() {
    let r = Response::from_request_error(&RequestError::MalformedHttp);
    assert_eq!(r.status, 400);
    assert_eq!(r.content, ResponseContent::Text("http is malformed".to_string()));

    let r = Response::from_request_error(&RequestError::MissingSecret);
    assert_eq!(r.content, ResponseContent::Text("secret header not found".to_string()));

    let r = Response::from_request_error(&RequestError::MissingNonce);
    assert_eq!(r.content, ResponseContent::Text("nonce header not found".to_string()));

    let r = Response::from_request_error(&RequestError::MalformedHeaders);
    assert_eq!(r.content, ResponseContent::Text("a header is malformed".to_string()));

    let r = Response::from_request_error(&RequestError::IllegalEndpoint);
    assert_eq!(
        r.content,
        ResponseContent::Text("tried to reach illegal endpoint /favicon.ico".to_string())
    );
}

#[test]
fn result_to_status_response() {
    let ok: Result<u32, RequestError> = Ok(7);
    let r = ok.to_status_response(500);
    assert_eq!(r.status, 200);
    assert_eq!(r.content, ResponseContent::Empty);

    let err: Result<u32, RequestError> = Err(RequestError::InvalidKey);
    let r = err.to_status_response(500);
    assert_eq!(r.status, 500);
    assert_eq!(r.content, ResponseContent::Empty);
}

#[test]
fn log_connection_refused_passes_result_through() {
    let logger = DummyLogger::new();
    let err: Result<u32, RequestError> = Err(RequestError::InvalidKey);
    assert_eq!(err.log_connection_refused(&logger), Err(RequestError::InvalidKey));
    let ok: Result<u32, RequestError> = Ok(3);
    assert_eq!(ok.log_connection_refused(&logger), Ok(3));
}

#[test]
fn into_response_maps_both_cases() {
    let ok: Result<Vec<u8>, NoDisplayError> = Ok(vec![5]);
    let r = ok.into_response(Response::from_png);
    assert_eq!(r.status, 200);
    assert_eq!(r.content, ResponseContent::Png(vec![5]));

    let err: Result<Vec<u8>, NoDisplayError> = Err(NoDisplayError);
    let r = err.into_response(Response::from_png);
    assert_eq!(r.status, 400);
    assert_eq!(
        r.content,
        ResponseContent::Text("no display found (to screenshot)".to_string())
    );
}

#[test]
fn os_action_error_messages() {
    assert_eq!(
        ProcessNotRunningError::new("taskbar").message(),
        "taskbar process isn't running"
    );
    assert_eq!(server::LockScreenError.message(), "failed to lock the screen");
    assert_eq!(NoDisplayError.message(), "no display found (to screenshot)");
}
