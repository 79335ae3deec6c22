//! End-to-end tests of the protocol engine: parsing, authentication, and
//! response serialization, against independently computed secrets.

use sha2::Digest;

use server::{Key, KeyError, Method, Nonce, NonceError, Request, RequestError, Response};

const KEY_TEXT: &str = "this is a key and it's 32 bytes.";

/// The secret a client computes: hex of sha512 over the nonce's decimal
/// digits followed by the key, computed here directly with the hash crates.
fn secret_for(nonce: u128, key: &str) -> String {
    let mut hasher = sha2::Sha512::new();
    hasher.update(nonce.to_string());
    hasher.update(key);
    hex::encode(hasher.finalize())
}

fn request_bytes(method: &str, path: &str, nonce: u128, secret: &str) -> Vec<u8> {
    format!("{method} {path} HTTP/1.1\r\nContent-Length: 0\r\nNonce: {nonce}\r\nSecret: {secret}\r\n\r\n")
        .into_bytes()
}

#[test]
fn generate_secret_matches_reference() {
    let key = Key::new(KEY_TEXT.to_string()).unwrap();
    assert_eq!(key.generate_secret(1234567890), secret_for(1234567890, KEY_TEXT));
    assert_eq!(key.generate_secret(0), secret_for(0, KEY_TEXT));
}

#[test]
fn authenticated_ping_round_trip() {
    let key = Key::new(KEY_TEXT.to_string()).unwrap();
    let t: u128 = 1_700_000_000_000;
    let mut guard = Nonce::with_value(t - 1, 2000);
    let secret = secret_for(t, KEY_TEXT);
    let buf = request_bytes("GET", "/ping", t, &secret);

    let request = Request::new_at(&buf, &key, &mut guard, t).unwrap();
    assert_eq!(request.method, Method::Get);
    assert_eq!(request.path, "/ping");
    assert_eq!(guard.value(), t);

    let response = Response::from_status(200).to_bytes();
    assert_eq!(response, b"HTTP/1.1 200\r\nContent-Length: 0\r\n\r\n".to_vec());
}

#[test]
fn replayed_request_rejected_verbatim() {
    let key = Key::new(KEY_TEXT.to_string()).unwrap();
    let t: u128 = 1_700_000_000_000;
    let mut guard = Nonce::with_value(t - 1, 2000);
    let secret = secret_for(t, KEY_TEXT);
    let buf = request_bytes("GET", "/ping", t, &secret);

    Request::new_at(&buf, &key, &mut guard, t).unwrap();
    let err = Request::new_at(&buf, &key, &mut guard, t).unwrap_err();
    assert_eq!(err, RequestError::NonceError(NonceError::FromPast));
    assert_eq!(guard.value(), t);

    let msg = "nonce is too old; are server and client clocks out of sync?";
    let expected = format!(
        "HTTP/1.1 400\r\nContent-Type: text/plain; charset=utf-8\r\nContent-Length: {}\r\n\r\n{msg}",
        msg.len()
    );
    assert_eq!(Response::from_request_error(&err).to_bytes(), expected.into_bytes());
}

#[test]
fn secret_is_bound_to_its_nonce() {
    let key = Key::new(KEY_TEXT.to_string()).unwrap();
    let mut guard = Nonce::with_value(100, 2000);
    // A correct secret for nonce 300, sent with nonce 200.
    let secret = secret_for(300, KEY_TEXT);
    let buf = request_bytes("GET", "/ping", 200, &secret);
    let err = Request::new_at(&buf, &key, &mut guard, 200).unwrap_err();
    assert_eq!(err, RequestError::InvalidKey);
    assert_eq!(guard.value(), 100);
}

#[test]
fn wrong_secret_does_not_burn_the_nonce() {
    let key = Key::new(KEY_TEXT.to_string()).unwrap();
    let t: u128 = 5_000_000;
    let mut guard = Nonce::with_value(t - 10, 2000);

    let wrong = request_bytes("GET", "/ping", t, "definitely not the secret");
    let err = Request::new_at(&wrong, &key, &mut guard, t).unwrap_err();
    assert_eq!(err, RequestError::InvalidKey);
    assert_eq!(guard.value(), t - 10);

    // The same nonce with the correct secret still authenticates.
    let right = request_bytes("GET", "/ping", t, &secret_for(t, KEY_TEXT));
    let request = Request::new_at(&right, &key, &mut guard, t).unwrap();
    assert_eq!(request.path, "/ping");
    assert_eq!(guard.value(), t);
}

#[test]
fn future_nonce_rejected_with_correct_secret() {
    let key = Key::new(KEY_TEXT.to_string()).unwrap();
    let t: u128 = 5_000_000;
    let mut guard = Nonce::with_value(t, 2000);
    let candidate = t + 2001;
    let buf = request_bytes("GET", "/ping", candidate, &secret_for(candidate, KEY_TEXT));
    let err = Request::new_at(&buf, &key, &mut guard, t).unwrap_err();
    assert_eq!(err, RequestError::NonceError(NonceError::FromFuture));
    assert_eq!(guard.value(), t);
}

#[test]
fn favicon_rejected_even_with_correct_credentials() {
    let key = Key::new(KEY_TEXT.to_string()).unwrap();
    let t: u128 = 5_000_000;
    let mut guard = Nonce::with_value(t - 1, 2000);
    let buf = request_bytes("GET", "/favicon.ico", t, &secret_for(t, KEY_TEXT));
    let err = Request::new_at(&buf, &key, &mut guard, t).unwrap_err();
    assert_eq!(err, RequestError::IllegalEndpoint);
    // The nonce was not burned.
    assert_eq!(guard.value(), t - 1);
    let response = Response::from_request_error(&err);
    assert_eq!(response.status, 400);
}

#[test]
fn parse_rejections() {
    let key = Key::new(KEY_TEXT.to_string()).unwrap();
    let t: u128 = 5_000_000;
    let mut guard = Nonce::with_value(t - 1, 2000);
    let secret = secret_for(t, KEY_TEXT);

    let cases: Vec<(Vec<u8>, RequestError)> = vec![
        (Vec::new(), RequestError::MalformedHttp),
        (b"PUT /x HTTP/1.1\r\n\r\n".to_vec(), RequestError::MalformedHttp),
        (b"GET\r\n\r\n".to_vec(), RequestError::MalformedHttp),
        (
            format!("GET /x HTTP/1.1\r\nNonce: {t}\r\n\r\n").into_bytes(),
            RequestError::MissingSecret,
        ),
        (
            format!("GET /x HTTP/1.1\r\nSecret: {secret}\r\n\r\n").into_bytes(),
            RequestError::MissingNonce,
        ),
        (
            format!("GET /x HTTP/1.1\r\nNonce: abc\r\nSecret: {secret}\r\n\r\n").into_bytes(),
            RequestError::MalformedHeaders,
        ),
        (
            format!(
                "GET /x HTTP/1.1\r\nNonce: 340282366920938463463374607431768211456\r\nSecret: {secret}\r\n\r\n"
            )
            .into_bytes(),
            RequestError::MalformedHeaders,
        ),
    ];
    for (buf, expected) in cases {
        let err = Request::new_at(&buf, &key, &mut guard, t).unwrap_err();
        assert_eq!(err, expected);
        assert_eq!(guard.value(), t - 1);
    }
}

#[test]
fn wrong_key_gets_unauthorized_response() {
    let key = Key::new(KEY_TEXT.to_string()).unwrap();
    let fake = "this is a fake key, valid though";
    let t: u128 = 5_000_000;
    let mut guard = Nonce::with_value(t - 1, 2000);
    let buf = request_bytes("GET", "/ping", t, &secret_for(t, fake));
    let err = Request::new_at(&buf, &key, &mut guard, t).unwrap_err();
    assert_eq!(err, RequestError::InvalidKey);
    let response = Response::from_request_error(&err);
    assert_eq!(response.status, 401);
    let bytes = response.to_bytes();
    let text = String::from_utf8(bytes).unwrap();
    assert!(text.ends_with("key is invalid"));
}

#[test]
fn post_and_lossy_path() {
    let key = Key::new(KEY_TEXT.to_string()).unwrap();
    let t: u128 = 5_000_000;
    let mut guard = Nonce::with_value(t - 1, 2000);
    let secret = secret_for(t, KEY_TEXT);
    // A path with a byte that is not valid UTF-8: the path is decoded
    // lossily, never rejected for encoding alone.
    let mut buf = Vec::new();
    buf.extend_from_slice(b"POST /p\xffq HTTP/1.1\r\n");
    buf.extend_from_slice(format!("Nonce: {t}\r\nSecret: {secret}\r\n\r\n").as_bytes());
    let request = Request::new_at(&buf, &key, &mut guard, t).unwrap();
    assert_eq!(request.method, Method::Post);
    assert_eq!(request.path, "/p\u{fffd}q");
}

#[test]
fn nonce_header_with_plus_sign_parses() {
    let key = Key::new(KEY_TEXT.to_string()).unwrap();
    let t: u128 = 5_000_000;
    let mut guard = Nonce::with_value(t - 1, 2000);
    // `str::parse::<u128>` accepts a leading plus sign, so the engine does
    // too; the secret is still computed over the numeric value.
    let secret = secret_for(t, KEY_TEXT);
    let buf =
        format!("GET /ping HTTP/1.1\r\nNonce: +{t}\r\nSecret: {secret}\r\n\r\n").into_bytes();
    let request = Request::new_at(&buf, &key, &mut guard, t).unwrap();
    assert_eq!(request.path, "/ping");
    assert_eq!(guard.value(), t);
}

#[test]
fn key_policy() {
    assert!(Key::new(KEY_TEXT.to_string()).is_ok());
    assert_eq!(Key::new("short".to_string()).err().unwrap(), KeyError::WrongSize(5));
    assert_eq!(
        Key::new("x".repeat(33)).err().unwrap(),
        KeyError::WrongSize(33)
    );
    assert_eq!(
        Key::new("this is a key\nand it's 32 bytes.".to_string()).err().unwrap(),
        KeyError::InvalidCharacters
    );
    assert_eq!(
        Key::new(" this is a key and it is 32 b. ".to_string()).err().unwrap(),
        KeyError::WrongSize(31)
    );
    assert_eq!(
        Key::new(" his is a key and it's 32 bytes.".to_string()).err().unwrap(),
        KeyError::FlankingSpace
    );
    assert_eq!(
        Key::new("this is a key and it's 32 byte ".to_string()).err().unwrap(),
        KeyError::WrongSize(31)
    );
    assert_eq!(
        Key::new("his is a key and it's 32 bytes. ".to_string()).err().unwrap(),
        KeyError::FlankingSpace
    );
}

#[test]
fn method_names() {
    assert_eq!(Method::Get.as_str(), "GET");
    assert_eq!(Method::Post.as_str(), "POST");
}

#[test]
fn wall_clock_request_authenticates() {
    let key = Key::new(KEY_TEXT.to_string()).unwrap();
    let mut guard = Nonce::new(2000);
    let t = guard.value() + 1;
    let buf = request_bytes("GET", "/ping", t, &secret_for(t, KEY_TEXT));
    let request = Request::new(&buf, &key, &mut guard).unwrap();
    assert_eq!(request.path, "/ping");
    assert_eq!(guard.value(), t);
}

#[test]
fn header_lines_without_separator_are_skipped() {
    let key = Key::new(KEY_TEXT.to_string()).unwrap();
    let t: u128 = 5_000_000;
    let mut guard = Nonce::with_value(t - 1, 2000);
    let secret = secret_for(t, KEY_TEXT);
    let buf = format!(
        "GET /x HTTP/1.1\r\njunk line without separator\r\nNonce: {t}\r\nSecret: {secret}\r\n\r\n"
    )
    .into_bytes();
    let request = Request::new_at(&buf, &key, &mut guard, t).unwrap();
    assert_eq!(request.path, "/x");
}

#[test]
fn headers_after_blank_line_are_ignored() {
    let key = Key::new(KEY_TEXT.to_string()).unwrap();
    let t: u128 = 5_000_000;
    let mut guard = Nonce::with_value(t - 1, 2000);
    let secret = secret_for(t, KEY_TEXT);
    // The blank line ends the header section; credentials in the body do
    // not count.
    let buf = format!("GET /x HTTP/1.1\r\n\r\nNonce: {t}\r\nSecret: {secret}\r\n\r\n").into_bytes();
    let err = Request::new_at(&buf, &key, &mut guard, t).unwrap_err();
    assert_eq!(err, RequestError::MissingSecret);
}

#[test]
fn bare_line_feeds_accepted() {
    let key = Key::new(KEY_TEXT.to_string()).unwrap();
    let t: u128 = 5_000_000;
    let mut guard = Nonce::with_value(t - 1, 2000);
    let secret = secret_for(t, KEY_TEXT);
    let buf = format!("GET /x HTTP/1.1\nNonce: {t}\nSecret: {secret}\n\n").into_bytes();
    let request = Request::new_at(&buf, &key, &mut guard, t).unwrap();
    assert_eq!(request.path, "/x");
}

#[test]
fn first_of_duplicate_headers_wins() {
    let key = Key::new(KEY_TEXT.to_string()).unwrap();
    let t: u128 = 5_000_000;
    let mut guard = Nonce::with_value(t - 1, 2000);
    let secret = secret_for(t, KEY_TEXT);
    let buf = format!(
        "GET /x HTTP/1.1\r\nNonce: {t}\r\nNonce: 1\r\nSecret: {secret}\r\n\r\n"
    )
    .into_bytes();
    let request = Request::new_at(&buf, &key, &mut guard, t).unwrap();
    assert_eq!(request.path, "/x");
    assert_eq!(guard.value(), t);
}

#[test]
fn truncated_final_line_keeps_bare_carriage_return() {
    let key = Key::new(KEY_TEXT.to_string()).unwrap();
    let t: u128 = 5_000_000;
    let mut guard = Nonce::with_value(t - 1, 2000);
    let secret = secret_for(t, KEY_TEXT);
    // The buffer is cut off after the carriage return of the nonce line:
    // the unterminated line keeps its trailing byte, so the nonce text is
    // not a number.
    let buf = format!("GET /x HTTP/1.1\r\nSecret: {secret}\r\nNonce: {t}\r").into_bytes();
    let err = Request::new_at(&buf, &key, &mut guard, t).unwrap_err();
    assert_eq!(err, RequestError::MalformedHeaders);
}
