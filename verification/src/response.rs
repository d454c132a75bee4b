//! The server's replies: a `200 OK` response carrying a file, or an error status.
use crate::text::{decimal, decimal_text, ends_with, occurs_at, string_views, text_ends_with};
use vstd::prelude::*;
use vstd::utf8::encode_utf8;

verus! {

/// The name the server announces in every `200 OK` response.
pub const WEB_SERVER_NAME: &'static str = "jrp338-kqj094-web-server/0.1";

/// A `200 OK` response that serves a file.
#[derive(Clone, Debug, PartialEq, Eq)]
pub struct Response {
    pub protocol: String,
    pub status_message: String,
    pub web_server_name: String,
    pub content_type: String,
    pub content_length: usize,
    pub file_content: String,
}

/// The mathematical content of a [`Response`].
pub struct ResponseModel {
    pub protocol: Seq<char>,
    pub status_message: Seq<char>,
    pub web_server_name: Seq<char>,
    pub content_type: Seq<char>,
    pub content_length: usize,
    pub file_content: Seq<char>,
}

impl View for Response {
    type V = ResponseModel;

    open spec fn view(&self) -> ResponseModel {
        ResponseModel {
            protocol: self.protocol@,
            status_message: self.status_message@,
            web_server_name: self.web_server_name@,
            content_type: self.content_type@,
            content_length: self.content_length,
            file_content: self.file_content@,
        }
    }
}

/// Why a request was refused.
#[derive(Clone, Copy, Debug, PartialEq, Eq, Structural)]
pub enum ReqErr {
    /// `400 Bad Request`: not a well-formed `GET` command.
    Err400,
    /// `403 Forbidden`: the file is off-limits.
    Err403,
    /// `404 Not Found`: the file does not exist.
    Err404,
}

/// The text that announces a refusal, followed by a line break.
pub open spec fn error_text(e: ReqErr) -> Seq<char> {
    match e {
        ReqErr::Err400 => "400 Bad Request\n"@,
        ReqErr::Err403 => "403 Forbidden\n"@,
        ReqErr::Err404 => "404 Not Found\n"@,
    }
}

/// The content type of the served file named `file_name`: `text/html` for a
/// name ending in `.html` or `.shtml`, `text/plain` otherwise.
pub open spec fn content_type_for(file_name: Seq<char>) -> Seq<char> {
    if ends_with(file_name, ".html"@) || ends_with(file_name, ".shtml"@) {
        "text/"@ + "html"@
    } else {
        "text/"@ + "plain"@
    }
}

/// The response that serves `content`, read from the file named `file_name`,
/// for the request whose tokens are `tokens`. Its status line starts with the
/// request's own protocol token (`HTTP`, `HTTP/1.1`, ...), so a client is
/// answered in the protocol it asked in; only refusals carry a fixed `HTTP/1.0`.
pub open spec fn served_response(
    content: Seq<char>,
    file_name: Seq<char>,
    tokens: Seq<Seq<char>>,
) -> ResponseModel {
    ResponseModel {
        protocol: tokens[2],
        status_message: "200 OK"@,
        web_server_name: WEB_SERVER_NAME@,
        content_type: content_type_for(file_name),
        content_length: encode_utf8(content).len() as usize,
        file_content: content,
    }
}

/// The text of a response: a status line (the response's protocol, which is the
/// request's own, and its status), the header lines, a blank line, and then
/// exactly the content.
pub open spec fn response_text(m: ResponseModel) -> Seq<char> {
    m.protocol + " "@ + m.status_message + "\n"@ + m.web_server_name + "\nContent-type: "@
        + m.content_type + "\nContent-length: "@ + decimal(m.content_length as nat) + "\n\n"@
        + m.file_content
}

/// A response's text carries the whole file: it ends with the file's entire
/// content, and the part before the content (status line and headers) does not
/// depend on the content, so the text is exactly that part followed by all of it.
pub proof fn lemma_response_text_carries_whole_content(m: ResponseModel, other: Seq<char>)
    ensures
        ends_with(response_text(m), m.file_content),
        ({
            let n = ResponseModel { file_content: other, ..m };
            &&& response_text(n).len() - other.len() == response_text(m).len()
                - m.file_content.len()
            &&& response_text(n).take(response_text(n).len() - other.len()) == response_text(
                m,
            ).take(response_text(m).len() - m.file_content.len())
        }),
{
    let n = ResponseModel { file_content: other, ..m };
    let head = m.protocol + " "@ + m.status_message + "\n"@ + m.web_server_name
        + "\nContent-type: "@ + m.content_type + "\nContent-length: "@ + decimal(
        m.content_length as nat,
    ) + "\n\n"@;
    assert(response_text(m) == head + m.file_content);
    assert(response_text(n) == head + other);
    assert((head + m.file_content).subrange(head.len() as int, (head + m.file_content).len() as int)
        == m.file_content);
    assert(occurs_at(response_text(m), m.file_content, head.len() as int));
    assert((head + m.file_content).take(head.len() as int) == head);
    assert((head + other).take(head.len() as int) == head);
}

impl Response {
    /// The response as it is written to the client.
    pub fn to_text(&self) -> (r: String)
        ensures
            r@ == response_text(self@),
    {
        let mut r = String::from_str(self.protocol.as_str());
        r.append(" ");
        r.append(self.status_message.as_str());
        r.append("\n");
        r.append(self.web_server_name.as_str());
        r.append("\nContent-type: ");
        r.append(self.content_type.as_str());
        r.append("\nContent-length: ");
        let length = decimal_text(self.content_length);
        r.append(length.as_str());
        r.append("\n\n");
        r.append(self.file_content.as_str());
        r
    }
}

impl ReqErr {
    /// The refusal as it is written to the client and to the log.
    pub fn to_text(&self) -> (r: String)
        ensures
            r@ == error_text(*self),
    {
        match self {
            ReqErr::Err400 => String::from_str("400 Bad Request\n"),
            ReqErr::Err403 => String::from_str("403 Forbidden\n"),
            ReqErr::Err404 => String::from_str("404 Not Found\n"),
        }
    }
}

/// Builds the `200 OK` response that serves `file_contents`, read from the file
/// named `file_name`, for the request `req_info` (its tokens: method, path, protocol).
pub fn generate_response(file_contents: String, file_name: &str, req_info: &Vec<String>) -> (r:
    Response)
    requires
        req_info@.len() >= 3,
    ensures
        r@ == served_response(file_contents@, file_name@, string_views(req_info@)),
{
    let content_type = content_type_text(file_name);
    let content_length = file_contents.as_str().len();
    Response {
        protocol: req_info[2].clone(),
        status_message: String::from_str("200 OK"),
        web_server_name: String::from_str(WEB_SERVER_NAME),
        content_type,
        content_length,
        file_content: file_contents,
    }
}

/// The content type of the served file named `file_name`.
pub fn content_type_text(file_name: &str) -> (r: String)
    ensures
        r@ == content_type_for(file_name@),
{
    let mut content_type = String::from_str("text/");
    if text_ends_with(file_name, ".html") || text_ends_with(file_name, ".shtml") {
        content_type.append("html");
    } else {
        content_type.append("plain");
    }
    content_type
}

} // verus!
