//! The earlier, simpler request rules: the path need only begin with `/`, the
//! protocol need only mention `HTTP`, any existing path is opened as a file,
//! and the server name of a response is the request's fifth token when it has one.
use crate::response::{
    ReqErr, Response, ResponseModel, WEB_SERVER_NAME,
};
use crate::text::{contains, split_whitespace, string_views, text_contains, text_equals, tokens};
use crate::validation::{Action, ActionModel, Event, EventModel, PathKind, Stage};
use vstd::prelude::*;
use vstd::utf8::encode_utf8;

verus! {

/// The request line is a `GET` command by the earlier rules.
pub open spec fn request_line_valid(tokens: Seq<Seq<char>>) -> bool {
    &&& tokens.len() >= 3
    &&& tokens[0] == "GET"@
    &&& tokens[1].len() > 0 && tokens[1][0] == '/'
    &&& contains(tokens[2], "HTTP"@)
}

/// The check of the path's first byte can be made: it is a whole character.
pub open spec fn first_byte_checkable(tokens: Seq<Seq<char>>) -> bool {
    tokens.len() >= 3 && tokens[0] == "GET"@ ==> tokens[1].len() > 0 && (tokens[1][0] as u32)
        < 0x80
}

/// The content type by the earlier rules: `text/html` when the requested path
/// mentions `.html` anywhere, `text/plain` otherwise.
pub open spec fn content_type_for(request_path: Seq<char>) -> Seq<char> {
    if contains(request_path, ".html"@) {
        "text/"@ + "html"@
    } else {
        "text/"@ + "plain"@
    }
}

/// The response that serves `content` for the request `tokens` by the earlier
/// rules: the status line starts with the request's own protocol, the server
/// name is the request's fifth token (the value of a `Host:` line that follows
/// the request line) when it has one and the server's own name otherwise, and
/// the content type follows the requested path.
pub open spec fn served_response(content: Seq<char>, tokens: Seq<Seq<char>>) -> ResponseModel {
    ResponseModel {
        protocol: tokens[2],
        status_message: "200 OK"@,
        web_server_name: if tokens.len() >= 5 {
            tokens[4]
        } else {
            WEB_SERVER_NAME@
        },
        content_type: content_type_for(tokens[1]),
        content_length: encode_utf8(content).len() as usize,
        file_content: content,
    }
}

/// Builds the response that serves `file_contents` for the request `req_info`
/// by the earlier rules.
pub fn generate_response(file_contents: String, req_info: &Vec<String>) -> (r: Response)
    requires
        req_info@.len() >= 3,
    ensures
        r@ == served_response(file_contents@, string_views(req_info@)),
{
    let web_server_name = if req_info.len() >= 5 {
        assert(string_views(req_info@)[4] == req_info@[4]@);
        req_info[4].clone()
    } else {
        String::from_str(WEB_SERVER_NAME)
    };
    assert(string_views(req_info@)[1] == req_info@[1]@);
    let mut content_type = String::from_str("text/");
    if text_contains(req_info[1].as_str(), ".html") {
        content_type.append("html");
    } else {
        content_type.append("plain");
    }
    let content_length = file_contents.as_str().len();
    Response {
        protocol: req_info[2].clone(),
        status_message: String::from_str("200 OK"),
        web_server_name,
        content_type,
        content_length,
        file_content: file_contents,
    }
}

/// A request under validation by the earlier rules.
pub struct DraftValidation {
    tokens: Vec<String>,
    path: String,
    stage: Stage,
}

/// The mathematical content of a [`DraftValidation`].
pub struct DraftModel {
    pub tokens: Seq<Seq<char>>,
    pub path: Seq<char>,
    pub stage: Stage,
}

impl DraftValidation {
    /// Past the request line check, the tokens hold a method, a path and a protocol.
    #[verifier::type_invariant]
    spec fn well_formed(self) -> bool {
        self.stage != Stage::Finished ==> self.tokens@.len() >= 3
    }
}

impl View for DraftValidation {
    type V = DraftModel;

    closed spec fn view(&self) -> DraftModel {
        DraftModel { tokens: string_views(self.tokens@), path: self.path@, stage: self.stage }
    }
}

/// The first state and action of the validation of `input`.
pub open spec fn start(input: Seq<char>) -> (DraftModel, ActionModel) {
    let t = tokens(input);
    if !request_line_valid(t) {
        (
            DraftModel { tokens: t, path: Seq::empty(), stage: Stage::Finished },
            ActionModel::Respond(Err(ReqErr::Err400)),
        )
    } else {
        (
            DraftModel { tokens: t, path: Seq::empty(), stage: Stage::AwaitingRoot },
            ActionModel::LocateRoot,
        )
    }
}

/// The event answers what the stage waits for.
pub open spec fn expects(m: DraftModel, e: EventModel) -> bool {
    match m.stage {
        Stage::AwaitingRoot => e is RootFound,
        Stage::AwaitingInspection => e is Inspected,
        Stage::AwaitingFile => e is Opened,
        _ => false,
    }
}

/// The next state and action after the event `e`.
pub open spec fn next(m: DraftModel, e: EventModel) -> (DraftModel, ActionModel) {
    let finished = DraftModel { stage: Stage::Finished, ..m };
    match e {
        EventModel::RootFound(root) => (
            DraftModel { path: root + m.tokens[1], stage: Stage::AwaitingInspection, ..m },
            ActionModel::InspectPath(root + m.tokens[1]),
        ),
        EventModel::Inspected(PathKind::Missing) => (
            finished,
            ActionModel::Respond(Err(ReqErr::Err404)),
        ),
        EventModel::Inspected(_) => (
            DraftModel { stage: Stage::AwaitingFile, ..m },
            ActionModel::OpenFile(m.path),
        ),
        EventModel::Opened(Some(c)) => (
            finished,
            ActionModel::Respond(Ok(served_response(c, m.tokens))),
        ),
        _ => (finished, ActionModel::Respond(Err(ReqErr::Err403))),
    }
}

impl DraftValidation {
    /// Where the validation stands.
    pub fn stage(&self) -> (r: Stage)
        ensures
            r == self@.stage,
    {
        self.stage
    }

    /// Takes the next step after the caller performed the last action and
    /// found `event`.
    pub fn step(&mut self, event: Event) -> (r: Action)
        requires
            expects(old(self)@, event@),
        ensures
            (final(self)@, r@) == next(old(self)@, event@),
    {
        proof {
            use_type_invariant(&*self);
        }
        match event {
            Event::RootFound(root) => {
                let mut path = root;
                path.append(self.tokens[1].as_str());
                proof {
                    assert(string_views(self.tokens@)[1] == self.tokens@[1]@);
                }
                let target = path.clone();
                self.path = path;
                self.stage = Stage::AwaitingInspection;
                Action::InspectPath(target)
            },
            Event::Inspected(PathKind::Missing) => {
                self.stage = Stage::Finished;
                Action::Respond(Err(ReqErr::Err404))
            },
            Event::Inspected(_) => {
                self.stage = Stage::AwaitingFile;
                Action::OpenFile(self.path.clone())
            },
            Event::Opened(Some(c)) => {
                self.stage = Stage::Finished;
                Action::Respond(Ok(generate_response(c, &self.tokens)))
            },
            _ => {
                self.stage = Stage::Finished;
                Action::Respond(Err(ReqErr::Err403))
            },
        }
    }
}

/// Whether the first character of `s` is `/`, read as its first byte.
fn first_byte_is_slash(s: &str) -> (r: bool)
    requires
        s@.len() > 0,
        (s@[0] as u32) < 0x80,
    ensures
        r == (s@[0] == '/'),
{
    let c = s.get_char(0);
    c == '/'
}

/// Begins the validation of the request text `input` by the earlier rules.
pub fn validate_request(input: &str) -> (r: (DraftValidation, Action))
    requires
        first_byte_checkable(tokens(input@)),
    ensures
        (r.0@, r.1@) == start(input@),
{
    proof {
        reveal_strlit("GET");
        reveal_strlit("HTTP");
    }
    let req_info = split_whitespace(input);
    let ghost t = string_views(req_info@);
    let ok = if req_info.len() >= 3 && text_equals(req_info[0].as_str(), "GET") {
        assert(t[0] == req_info@[0]@);
        assert(t[1] == req_info@[1]@);
        assert(t[2] == req_info@[2]@);
        first_byte_is_slash(req_info[1].as_str()) && text_contains(req_info[2].as_str(), "HTTP")
    } else {
        proof {
            if req_info@.len() >= 3 {
                assert(t[0] == req_info@[0]@);
            }
        }
        false
    };
    let stage = if ok {
        Stage::AwaitingRoot
    } else {
        Stage::Finished
    };
    let v = DraftValidation { tokens: req_info, path: String::new(), stage };
    if ok {
        (v, Action::LocateRoot)
    } else {
        (v, Action::Respond(Err(ReqErr::Err400)))
    }
}

} // verus!
