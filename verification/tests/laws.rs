use webserver::handler::{log_status, reply_text};
use webserver::response::{generate_response, ReqErr};
use webserver::text::{decimal_text, split_whitespace};

#[test]
fn decimal_numerals_denote_their_number() {
    for n in [0usize, 1, 9, 10, 99, 100, 101, 65535, 1 << 40] {
        let text = decimal_text(n);
        assert_eq!(text.parse::<usize>().unwrap(), n);
        assert!(n == 0 || !text.starts_with('0'));
    }
}

#[test]
fn log_and_reply_tell_the_same_status() {
    let tokens: Vec<String> = ["GET", "/a", "HTTP/1.0"].iter().map(|s| s.to_string()).collect();
    let ok = Ok(generate_response("body".to_string(), "a.txt", &tokens));
    let reply = reply_text(&ok);
    assert!(reply.starts_with(&format!("HTTP/1.0 {}", log_status(&ok))));
    for e in [ReqErr::Err400, ReqErr::Err403, ReqErr::Err404] {
        assert_eq!(format!("HTTP/1.0 {}", log_status(&Err(e))), reply_text(&Err(e)));
    }
}

#[test]
fn tokens_are_non_empty_and_free_of_white_space() {
    for t in split_whitespace(" a\u{2003}bc \u{3000}\td\r\n") {
        assert!(!t.is_empty());
        assert!(!t.chars().any(char::is_whitespace));
    }
}
