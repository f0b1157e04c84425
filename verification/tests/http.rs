use waveshare28_panel::http::{
    body_of, content_length, find_header_end, parse, response_head, status_code, wants_more,
    HttpError,
};

#[test]
fn parses_host_port_path() {
    let t = parse("http://localhost:3000/api/v1/getState").unwrap();
    assert_eq!(t.authority, "localhost:3000");
    assert_eq!(t.path, "/api/v1/getState");
}

#[test]
fn defaults_port_and_path() {
    let t = parse("http://example").unwrap();
    assert_eq!(t.authority, "example:80");
    assert_eq!(t.path, "/");
}

#[test]
fn rejects_non_http() {
    assert!(parse("https://localhost/x").is_err());
}

#[test]
fn reads_status_line() {
    assert_eq!(status_code("HTTP/1.1 200 OK\r\nX: y").unwrap(), 200);
    assert_eq!(status_code("HTTP/1.1 500 Internal Server Error").unwrap(), 500);
}

#[test]
fn reads_content_length_case_insensitively() {
    let head = "HTTP/1.1 200 OK\r\nContent-Type: application/json\r\ncontent-length: 42";
    assert_eq!(content_length(head), Some(42));
}

#[test]
fn absent_content_length_is_none() {
    assert_eq!(content_length("HTTP/1.1 200 OK\r\nX: y"), None);
}

#[test]
fn finds_header_terminator() {
    assert_eq!(find_header_end(b"AB\r\n\r\nbody"), Some(2));
    assert_eq!(find_header_end(b"no terminator"), None);
}

#[test]
fn empty_authority_is_malformed() {
    assert!(matches!(parse("http:///x"), Err(HttpError::Url(_))));
}

#[test]
fn request_carries_path_and_host() {
    let t = parse("http://h:1/p?q").unwrap();
    let r = t.request();
    assert!(r.starts_with("GET /p?q HTTP/1.1\r\nHost: h:1\r\n"));
    assert!(r.ends_with("\r\n\r\n"));
}

#[test]
fn status_line_without_a_code_is_malformed() {
    assert!(matches!(status_code("HTTP/1.1"), Err(HttpError::Response)));
    assert!(matches!(status_code(""), Err(HttpError::Response)));
    assert!(matches!(status_code("HTTP/1.1 abc"), Err(HttpError::Response)));
}

#[test]
fn a_whole_response_is_cut_at_its_length() {
    let raw = b"HTTP/1.1 200 OK\r\nContent-Length: 3\r\n\r\nabcdef";
    let end = find_header_end(raw).unwrap();
    let head = response_head(raw, end).unwrap();
    assert_eq!(head.code, 200);
    assert_eq!(head.content_length, Some(3));
    assert!(!wants_more(&head, raw.len()));
    assert_eq!(body_of(raw, &head).unwrap(), b"abc".to_vec());
}

#[test]
fn a_short_response_wants_more_and_returns_what_came() {
    let raw = b"HTTP/1.1 200 OK\r\nContent-Length: 10\r\n\r\nab";
    let end = find_header_end(raw).unwrap();
    let head = response_head(raw, end).unwrap();
    assert!(wants_more(&head, raw.len()));
    assert_eq!(body_of(raw, &head).unwrap(), b"ab".to_vec());
}

#[test]
fn a_non_2xx_status_is_an_error() {
    let raw = b"HTTP/1.1 404 Not Found\r\n\r\n";
    let end = find_header_end(raw).unwrap();
    let head = response_head(raw, end).unwrap();
    assert!(matches!(body_of(raw, &head), Err(HttpError::Status(404))));
}

#[test]
fn a_head_that_is_not_utf8_is_malformed() {
    let raw = b"HTTP/1.1 \xff200\r\n\r\n";
    let end = find_header_end(raw).unwrap();
    assert!(matches!(response_head(raw, end), Err(HttpError::Response)));
}
