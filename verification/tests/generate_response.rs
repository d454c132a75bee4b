use webserver::response::{generate_response, ReqErr, Response, WEB_SERVER_NAME};

fn response_assert(req_info: &Vec<&str>, file_contents: &str, expected: Response) {
    let tokens: Vec<String> = req_info.iter().map(|s| s.to_string()).collect();
    let output = generate_response(file_contents.to_string(), req_info[1], &tokens);
    assert_eq!(expected, output);
}

#[test]
fn txt_response() {
    let response = Response {
        protocol: "HTTP".to_owned(),
        status_message: "200 OK".to_owned(),
        web_server_name: WEB_SERVER_NAME.to_owned(),
        content_type: "text/plain".to_owned(),
        content_length: 4,
        file_content: "meow".to_owned(),
    };
    response_assert(&vec!["GET", "/test/meow.txt", "HTTP"], "meow", response);
}

#[test]
fn html_response() {
    let response = Response {
        protocol: "HTTP".to_owned(),
        status_message: "200 OK".to_owned(),
        web_server_name: WEB_SERVER_NAME.to_owned(),
        content_type: "text/html".to_owned(),
        content_length: 0,
        file_content: "".to_owned(),
    };
    response_assert(&vec!["GET", "/test/html/index.html", "HTTP"], "", response);
}

#[test]
fn shtml_response() {
    let response = Response {
        protocol: "HTTP".to_owned(),
        status_message: "200 OK".to_owned(),
        web_server_name: WEB_SERVER_NAME.to_owned(),
        content_type: "text/html".to_owned(),
        content_length: 0,
        file_content: "".to_owned(),
    };
    response_assert(&vec!["GET", "/test/shtml/index.shtml", "HTTP"], "", response);
}

#[test]
fn http11_response() {
    let response = Response {
        protocol: "HTTP/1.1".to_owned(),
        status_message: "200 OK".to_owned(),
        web_server_name: WEB_SERVER_NAME.to_owned(),
        content_type: "text/html".to_owned(),
        content_length: 0,
        file_content: "".to_owned(),
    };
    response_assert(&vec!["GET", "/test/shtml/index.shtml", "HTTP/1.1"], "", response);
}

#[test]
fn content_length_counts_utf8_bytes() {
    let tokens: Vec<String> = vec!["GET".into(), "/a".into(), "HTTP".into()];
    let r = generate_response("héllo €".to_string(), "/srv/a", &tokens);
    assert_eq!(r.content_length, 10);
    assert_eq!(r.content_type, "text/plain");
}

#[test]
fn response_text_layout() {
    let r = Response {
        protocol: "HTTP/1.1".to_owned(),
        status_message: "200 OK".to_owned(),
        web_server_name: WEB_SERVER_NAME.to_owned(),
        content_type: "text/plain".to_owned(),
        content_length: 1234,
        file_content: "meow".to_owned(),
    };
    assert_eq!(
        r.to_text(),
        "HTTP/1.1 200 OK\njrp338-kqj094-web-server/0.1\nContent-type: text/plain\nContent-length: 1234\n\nmeow"
    );
}

#[test]
fn error_texts() {
    assert_eq!(ReqErr::Err400.to_text(), "400 Bad Request\n");
    assert_eq!(ReqErr::Err403.to_text(), "403 Forbidden\n");
    assert_eq!(ReqErr::Err404.to_text(), "404 Not Found\n");
}

#[test]
fn content_type_by_suffix() {
    let tokens: Vec<String> = vec!["GET".into(), "/html/".into(), "HTTP".into()];
    let typed = |name: &str| generate_response(String::new(), name, &tokens).content_type;
    assert_eq!(typed("/html/notes.txt"), "text/plain");
    assert_eq!(typed("index.html"), "text/html");
    assert_eq!(typed("index.shtml"), "text/html");
    assert_eq!(typed("index.htm"), "text/plain");
    assert_eq!(typed("html"), "text/plain");
}
