use webserver::handler::{log_line, log_status, reply_text};
use webserver::pattern::{check_request_line, request_line_accepted};
use webserver::response::{ReqErr, Response, WEB_SERVER_NAME};
use webserver::stream::{absorb_chunk, received_text, CHUNK_SIZE};
use webserver::text::{decimal_text, split_whitespace, text_contains, text_equals, text_starts_with};

fn strings(v: &[&str]) -> Vec<String> {
    v.iter().map(|s| s.to_string()).collect()
}

#[test]
fn tokens_are_maximal_non_white_space_runs() {
    assert_eq!(split_whitespace(""), Vec::<String>::new());
    assert_eq!(split_whitespace(" \t\r\n "), Vec::<String>::new());
    assert_eq!(
        split_whitespace("GET /index.html HTTP/1.1\r\nHost: x\r\n\r\n"),
        strings(&["GET", "/index.html", "HTTP/1.1", "Host:", "x"])
    );
    assert_eq!(split_whitespace("a\u{3000}b\u{a0}c\u{85}d"), strings(&["a", "b", "c", "d"]));
    assert_eq!(split_whitespace("  lead  trail  "), strings(&["lead", "trail"]));
}

#[test]
fn tokenizing_agrees_with_std() {
    for text in [
        "GET / HTTP",
        "x\u{2028}y\u{200b}z",
        "\0\0GET\0 /a\u{1680}b",
        "é à\tü\n",
        "one",
    ] {
        let expected: Vec<String> = text.split_whitespace().map(|s| s.to_string()).collect();
        assert_eq!(split_whitespace(text), expected);
    }
}

#[test]
fn text_predicates() {
    assert!(text_contains("/srv/a.zip/b", ".zip"));
    assert!(!text_contains("/srv/a.zi", ".zip"));
    assert!(text_contains("abc", ""));
    assert!(!text_contains("", "a"));
    assert!(text_starts_with("HTTP/1.0", "HTTP"));
    assert!(!text_starts_with("HTT", "HTTP"));
    assert!(!text_starts_with("http", "HTTP"));
    assert!(text_equals("GET", "GET"));
    assert!(!text_equals("GET", "GETS"));
}

#[test]
fn decimal_numerals() {
    assert_eq!(decimal_text(0), "0");
    assert_eq!(decimal_text(7), "7");
    assert_eq!(decimal_text(10), "10");
    assert_eq!(decimal_text(4096), "4096");
    assert_eq!(decimal_text(usize::MAX), usize::MAX.to_string());
}

#[test]
fn request_line_rules() {
    assert!(request_line_accepted(&strings(&["GET", "/a", "HTTP/1.0"]), true));
    assert!(!request_line_accepted(&strings(&["GET", "/a", "HTTP/1.0"]), false));
    assert!(!request_line_accepted(&strings(&["POST", "/a", "HTTP"]), true));
    assert!(!request_line_accepted(&strings(&["GET", "/a"]), true));
    assert!(!request_line_accepted(&strings(&["GET", "/a", "FTP"]), true));
    assert_eq!(check_request_line(&strings(&["GET", "/a", "HTTP"])), Some(true));
    assert_eq!(check_request_line(&strings(&["GET", "a/", "HTTP"])), Some(false));
    assert_eq!(check_request_line(&strings(&["GET", "/ä", "HTTP"])), Some(true));
    assert_eq!(check_request_line(&strings(&["GET", "/%41", "HTTP"])), Some(false));
    assert_eq!(check_request_line(&strings(&[])), Some(false));
}

#[test]
fn chunks_are_gathered() {
    let mut received = Vec::new();
    let mut buf = vec![b'a'; CHUNK_SIZE];
    assert!(absorb_chunk(&mut received, &buf, CHUNK_SIZE));
    assert_eq!(received.len(), CHUNK_SIZE);
    buf[0] = b'G';
    assert!(!absorb_chunk(&mut received, &buf, 0));
    assert_eq!(received_text(received.clone()), Some("a".repeat(CHUNK_SIZE)));
    assert!(!absorb_chunk(&mut received, &buf, 1));
    assert_eq!(received_text(received), Some(format!("{}G", "a".repeat(CHUNK_SIZE))));
}

#[test]
fn only_received_bytes_are_kept() {
    let mut received = Vec::new();
    let mut buf = vec![0u8; CHUNK_SIZE];
    buf[..3].copy_from_slice(b"GET");
    assert!(!absorb_chunk(&mut received, &buf, 3));
    assert_eq!(received_text(received), Some("GET".to_string()));
}

#[test]
fn characters_split_across_chunks_are_kept() {
    let text = format!("{}é\r\n", "a".repeat(CHUNK_SIZE - 1));
    let bytes = text.as_bytes();
    let mut received = Vec::new();
    let mut buf = vec![0u8; CHUNK_SIZE];
    buf.copy_from_slice(&bytes[..CHUNK_SIZE]);
    assert!(absorb_chunk(&mut received, &buf, CHUNK_SIZE));
    let rest = &bytes[CHUNK_SIZE..];
    buf[..rest.len()].copy_from_slice(rest);
    assert!(!absorb_chunk(&mut received, &buf, rest.len()));
    assert_eq!(received_text(received), Some(text));
}

#[test]
fn invalid_utf8_is_refused() {
    assert_eq!(received_text(vec![b'x', 0xc3]), None);
    assert_eq!(received_text(vec![0xff]), None);
    assert_eq!(received_text("é€".as_bytes().to_vec()), Some("é€".to_string()));
}

#[test]
fn log_lines() {
    let req = strings(&["GET", "/test/meow.txt", "HTTP"]);
    assert_eq!(
        log_line(&req, 0, "200 OK\n"),
        Some("1970-01-01 00:00:00  -  GET /test/meow.txt HTTP  -  200 OK\n".to_string())
    );
    assert_eq!(
        log_line(&strings(&["GET", "/x", "HTTP/1.1", "Host:"]), 1_000_000_000, "404 Not Found\n"),
        Some("2001-09-09 01:46:40  -  GET /x HTTP/1.1  -  404 Not Found\n".to_string())
    );
    assert_eq!(log_line(&req, i64::MAX, "200 OK\n"), None);
    assert_eq!(
        log_line(&strings(&["lol"]), 0, "400 Bad Request\n"),
        Some("1970-01-01 00:00:00  -  lol  -  400 Bad Request\n".to_string())
    );
    assert_eq!(
        log_line(&strings(&[]), 0, "400 Bad Request\n"),
        Some("1970-01-01 00:00:00  -   -  400 Bad Request\n".to_string())
    );
}

#[test]
fn replies_and_logged_statuses() {
    let ok: Result<Response, ReqErr> = Ok(Response {
        protocol: "HTTP".to_owned(),
        status_message: "200 OK".to_owned(),
        web_server_name: WEB_SERVER_NAME.to_owned(),
        content_type: "text/plain".to_owned(),
        content_length: 4,
        file_content: "meow".to_owned(),
    });
    assert_eq!(log_status(&ok), "200 OK\n");
    assert_eq!(
        reply_text(&ok),
        "HTTP 200 OK\njrp338-kqj094-web-server/0.1\nContent-type: text/plain\nContent-length: 4\n\nmeow"
    );
    for (e, text) in [
        (ReqErr::Err400, "400 Bad Request\n"),
        (ReqErr::Err403, "403 Forbidden\n"),
        (ReqErr::Err404, "404 Not Found\n"),
    ] {
        assert_eq!(log_status(&Err(e)), text);
        assert_eq!(reply_text(&Err(e)), format!("HTTP/1.0 {}", text));
    }
}
