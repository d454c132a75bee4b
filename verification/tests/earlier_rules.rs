use webserver::reqhandler::{generate_response, validate_request};
use webserver::response::{ReqErr, Response, WEB_SERVER_NAME};
use webserver::validation::{Action, Event, PathKind, Stage};

/// Drives the earlier rules to their answer: `exists` says whether the target
/// path exists, and `content` is what opening it yields.
fn answer(input: &str, exists: bool, content: Option<&str>) -> Result<Response, ReqErr> {
    let (mut v, mut action) = validate_request(input);
    loop {
        action = match action {
            Action::Respond(r) => {
                assert_eq!(v.stage(), Stage::Finished);
                return r;
            }
            Action::LocateRoot => v.step(Event::RootFound("/srv".to_string())),
            Action::InspectPath(p) => {
                assert!(p.starts_with("/srv/"));
                let kind = if exists { PathKind::File } else { PathKind::Missing };
                v.step(Event::Inspected(kind))
            }
            Action::OpenFile(_) => v.step(Event::Opened(content.map(|c| c.to_string()))),
            _ => panic!("the earlier rules only inspect and open paths"),
        };
    }
}

#[test]
fn earlier_rules_refuse_malformed_lines() {
    assert_eq!(answer("", true, Some("x")), Err(ReqErr::Err400));
    assert_eq!(answer("GET /a", true, Some("x")), Err(ReqErr::Err400));
    assert_eq!(answer("PUT /a HTTP", true, Some("x")), Err(ReqErr::Err400));
    assert_eq!(answer("GET a HTTP", true, Some("x")), Err(ReqErr::Err400));
    assert_eq!(answer("GET /a FTP", true, Some("x")), Err(ReqErr::Err400));
}

#[test]
fn earlier_rules_serve_a_three_token_request() {
    let r = answer("GET /test/meow.txt HTTP", true, Some("meow")).unwrap();
    assert_eq!(r.status_message, "200 OK");
    assert_eq!(r.file_content, "meow");
    assert_eq!(r.content_length, 4);
    assert_eq!(r.protocol, "HTTP");
    assert_eq!(r.web_server_name, WEB_SERVER_NAME);
    assert_eq!(r.content_type, "text/plain");
}

#[test]
fn earlier_rules_accept_protocols_that_mention_http() {
    let r = answer("GET /page.html xHTTPx Host: name", true, Some("hi")).unwrap();
    assert_eq!(r.protocol, "xHTTPx");
    assert_eq!(r.web_server_name, "name");
    assert_eq!(r.content_type, "text/html");
    assert_eq!(r.content_length, 2);
}

#[test]
fn earlier_rules_missing_and_locked_files() {
    assert_eq!(answer("GET /gone HTTP", false, None), Err(ReqErr::Err404));
    assert_eq!(answer("GET /locked HTTP", true, None), Err(ReqErr::Err403));
}

#[test]
fn earlier_rules_type_files_by_the_requested_path() {
    let tokens: Vec<String> =
        ["GET", "/shtml/index.shtml", "HTTP", "Host:", "srv"].iter().map(|s| s.to_string()).collect();
    let r = generate_response("ok".to_string(), &tokens);
    assert_eq!(r.content_type, "text/plain");
    assert_eq!(r.web_server_name, "srv");
    assert_eq!(r.status_message, "200 OK");
    let tokens: Vec<String> =
        ["GET", "/a.html/notes.txt", "HTTP"].iter().map(|s| s.to_string()).collect();
    assert_eq!(generate_response("ok".to_string(), &tokens).content_type, "text/html");
}
