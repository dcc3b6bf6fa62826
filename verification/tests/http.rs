use web_server::http::build_response;
use web_server::http::choose_response;
use web_server::http::is_root_request;
use web_server::http::root_request_line;

#[test]
fn root_request_is_answered_with_success() {
    let mut buffer = root_request_line();
    buffer.resize(1024, 0);
    let (status_line, filename) = choose_response(&buffer);
    assert!(status_line.starts_with("HTTP/1.1 200 OK"));
    assert_eq!(status_line, "HTTP/1.1 200 OK\r\n\r\n");
    assert_eq!(filename, "hello.html");
}

#[test]
fn other_request_is_answered_with_not_found() {
    let mut buffer = b"GET /other HTTP/1.1\r\n".to_vec();
    buffer.resize(1024, 0);
    let (status_line, filename) = choose_response(&buffer);
    assert!(status_line.starts_with("HTTP/1.1 404 NOT FOUND"));
    assert_eq!(status_line, "HTTP/1.1 404 NOT FOUND\r\n\r\n");
    assert_eq!(filename, "404.html");
}

#[test]
fn root_request_line_is_the_expected_bytes() {
    assert_eq!(root_request_line(), b"GET / HTTP/1.1\r\n".to_vec());
}

#[test]
fn prefix_match_is_byte_exact() {
    let line = root_request_line();
    assert!(is_root_request(&line));
    let mut padded = line.clone();
    padded.push(88);
    assert!(is_root_request(&padded));
    let short = &line[..15];
    assert!(!is_root_request(short));
    let mut off = line.clone();
    off[15] = 0;
    assert!(!is_root_request(&off));
    assert!(!is_root_request(b"GET /x HTTP/1.1\r\n"));
}

#[test]
fn response_is_status_line_then_contents() {
    let r = build_response("HTTP/1.1 200 OK\r\n\r\n", "hello");
    assert_eq!(r, "HTTP/1.1 200 OK\r\n\r\nhello");
    let empty = build_response("HTTP/1.1 404 NOT FOUND\r\n\r\n", "");
    assert_eq!(empty, "HTTP/1.1 404 NOT FOUND\r\n\r\n");
}
