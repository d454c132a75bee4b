//! Validation of a `GET` request against the file system, as a state machine.
//!
//! The library decides; the caller performs each [`Action`] on the file system
//! and hands back what it found as an [`Event`], until the action is
//! [`Action::Respond`].
use crate::pattern::{check_request_line, regex_compiles, request_line_valid, PATH_PATTERN};
use crate::response::{
    generate_response, served_response, ReqErr, Response, ResponseModel,
};
use crate::text::{contains, string_views, text_contains, text_equals};
use vstd::prelude::*;

verus! {

/// What the file system holds at a path.
#[derive(Clone, Copy, Debug, PartialEq, Eq, Structural)]
pub enum PathKind {
    /// Nothing is there.
    Missing,
    /// A regular file.
    File,
    /// A directory.
    Directory,
    /// Something else.
    Other,
}

/// One entry of a directory listing.
#[derive(Clone, Debug, PartialEq, Eq)]
pub struct EntryInfo {
    /// The entry's file name.
    pub name: String,
    /// Whether the entry's type could be read and is a regular file.
    pub is_file: bool,
}

/// The mathematical content of an [`EntryInfo`].
pub struct EntryModel {
    pub name: Seq<char>,
    pub is_file: bool,
}

impl View for EntryInfo {
    type V = EntryModel;

    open spec fn view(&self) -> EntryModel {
        EntryModel { name: self.name@, is_file: self.is_file }
    }
}

/// The views of a directory listing.
pub open spec fn entry_views(v: Seq<EntryInfo>) -> Seq<EntryModel> {
    v.map_values(|e: EntryInfo| e@)
}

/// What the caller found when it performed the last action.
pub enum Event {
    /// The directory that requested paths are resolved under.
    RootFound(String),
    /// What is at the inspected path.
    Inspected(PathKind),
    /// The content of the opened file, or `None` when it could not be opened.
    Opened(Option<String>),
    /// The directory's entries in listing order, or `None` when it could not be listed.
    Listed(Option<Vec<EntryInfo>>),
}

/// The mathematical content of an [`Event`].
pub enum EventModel {
    RootFound(Seq<char>),
    Inspected(PathKind),
    Opened(Option<Seq<char>>),
    Listed(Option<Seq<EntryModel>>),
}

impl View for Event {
    type V = EventModel;

    open spec fn view(&self) -> EventModel {
        match self {
            Event::RootFound(r) => EventModel::RootFound(r@),
            Event::Inspected(k) => EventModel::Inspected(*k),
            Event::Opened(c) => EventModel::Opened(
                match c {
                    Some(s) => Some(s@),
                    None => None,
                },
            ),
            Event::Listed(l) => EventModel::Listed(
                match l {
                    Some(v) => Some(entry_views(v@)),
                    None => None,
                },
            ),
        }
    }
}

/// What the caller is to do next.
pub enum Action {
    /// Find the directory that requested paths are resolved under: the
    /// server's working directory.
    LocateRoot,
    /// Find out what is at this path.
    InspectPath(String),
    /// Open the file at this path and read it whole.
    OpenFile(String),
    /// List the directory at this path.
    ListDirectory(String),
    /// Open the listed entry with this index and read it whole.
    OpenEntry(usize),
    /// Answer the client.
    Respond(Result<Response, ReqErr>),
}

/// The mathematical content of an [`Action`].
pub enum ActionModel {
    LocateRoot,
    InspectPath(Seq<char>),
    OpenFile(Seq<char>),
    ListDirectory(Seq<char>),
    OpenEntry(int),
    Respond(Result<ResponseModel, ReqErr>),
}

/// The view of an answer.
pub open spec fn result_view(r: Result<Response, ReqErr>) -> Result<ResponseModel, ReqErr> {
    match r {
        Ok(resp) => Ok(resp@),
        Err(e) => Err(e),
    }
}

impl View for Action {
    type V = ActionModel;

    open spec fn view(&self) -> ActionModel {
        match self {
            Action::LocateRoot => ActionModel::LocateRoot,
            Action::InspectPath(p) => ActionModel::InspectPath(p@),
            Action::OpenFile(p) => ActionModel::OpenFile(p@),
            Action::ListDirectory(p) => ActionModel::ListDirectory(p@),
            Action::OpenEntry(i) => ActionModel::OpenEntry(*i as int),
            Action::Respond(r) => ActionModel::Respond(result_view(*r)),
        }
    }
}

/// Where a validation stands.
#[derive(Clone, Copy, Debug, PartialEq, Eq, Structural)]
pub enum Stage {
    /// Waiting to learn the directory that paths are resolved under.
    AwaitingRoot,
    /// Waiting to learn what is at the target path.
    AwaitingInspection,
    /// Waiting for the requested file's content.
    AwaitingFile,
    /// Waiting for the requested directory's listing.
    AwaitingListing,
    /// Waiting for the content of the chosen index file.
    AwaitingEntry,
    /// The answer is given.
    Finished,
}

/// A request under validation.
pub struct Validation {
    tokens: Vec<String>,
    path: String,
    served: String,
    stage: Stage,
}

/// The mathematical content of a [`Validation`].
pub struct ValidationModel {
    /// The request's tokens.
    pub tokens: Seq<Seq<char>>,
    /// The target path, once the root is known.
    pub path: Seq<char>,
    /// The name of the file being opened, which decides its content type.
    pub served: Seq<char>,
    pub stage: Stage,
}

impl Validation {
    /// Past the request line check, the tokens hold a method, a path and a protocol.
    #[verifier::type_invariant]
    spec fn well_formed(self) -> bool {
        self.stage != Stage::Finished ==> self.tokens@.len() >= 3
    }
}

impl View for Validation {
    type V = ValidationModel;

    closed spec fn view(&self) -> ValidationModel {
        ValidationModel {
            tokens: string_views(self.tokens@),
            path: self.path@,
            served: self.served@,
            stage: self.stage,
        }
    }
}

/// The path of the requested file: the server's root followed by the requested path.
pub open spec fn target_path(root: Seq<char>, tokens: Seq<Seq<char>>) -> Seq<char> {
    root + tokens[1]
}

/// A compressed file, which the server never serves.
pub open spec fn is_compressed(path: Seq<char>) -> bool {
    contains(path, ".zip"@) || contains(path, ".7z"@)
}

/// A directory entry that can stand for its directory.
pub open spec fn is_index_entry(e: EntryModel) -> bool {
    e.is_file && (e.name == "index.html"@ || e.name == "index.shtml"@ || e.name == "index.txt"@)
}

/// The position of the first index entry of a listing.
pub open spec fn first_index_entry(es: Seq<EntryModel>) -> Option<int>
    decreases es.len(),
{
    if es.len() == 0 {
        None
    } else if is_index_entry(es[0]) {
        Some(0)
    } else {
        match first_index_entry(es.drop_first()) {
            Some(i) => Some(i + 1),
            None => None,
        }
    }
}

/// The first state and action of the validation of the request `tokens`.
pub open spec fn start(tokens: Seq<Seq<char>>) -> (ValidationModel, ActionModel) {
    if !request_line_valid(tokens) {
        (
            ValidationModel {
                tokens,
                path: Seq::empty(),
                served: Seq::empty(),
                stage: Stage::Finished,
            },
            ActionModel::Respond(Err(ReqErr::Err400)),
        )
    } else {
        (
            ValidationModel {
                tokens,
                path: Seq::empty(),
                served: Seq::empty(),
                stage: Stage::AwaitingRoot,
            },
            ActionModel::LocateRoot,
        )
    }
}

/// The event answers the action that the stage waits for.
pub open spec fn expects(stage: Stage, e: EventModel) -> bool {
    match stage {
        Stage::AwaitingRoot => e is RootFound,
        Stage::AwaitingInspection => e is Inspected,
        Stage::AwaitingFile => e is Opened,
        Stage::AwaitingListing => e is Listed,
        Stage::AwaitingEntry => e is Opened,
        Stage::Finished => false,
    }
}

/// The answer once the content of the file named `name`, or the failure to
/// open it, is known.
pub open spec fn answer_opened(tokens: Seq<Seq<char>>, name: Seq<char>, c: Option<Seq<char>>) -> ActionModel {
    match c {
        Some(content) => ActionModel::Respond(Ok(served_response(content, name, tokens))),
        None => ActionModel::Respond(Err(ReqErr::Err403)),
    }
}

/// The next state and action after the event `e`.
pub open spec fn next(m: ValidationModel, e: EventModel) -> (ValidationModel, ActionModel) {
    let finished = ValidationModel { stage: Stage::Finished, ..m };
    match e {
        EventModel::RootFound(root) => {
            let path = target_path(root, m.tokens);
            if is_compressed(path) {
                (
                    ValidationModel { path, stage: Stage::Finished, ..m },
                    ActionModel::Respond(Err(ReqErr::Err403)),
                )
            } else {
                (
                    ValidationModel { path, stage: Stage::AwaitingInspection, ..m },
                    ActionModel::InspectPath(path),
                )
            }
        },
        EventModel::Inspected(kind) => match kind {
            PathKind::File => (
                ValidationModel { served: m.path, stage: Stage::AwaitingFile, ..m },
                ActionModel::OpenFile(m.path),
            ),
            PathKind::Directory => (
                ValidationModel { stage: Stage::AwaitingListing, ..m },
                ActionModel::ListDirectory(m.path),
            ),
            _ => (finished, ActionModel::Respond(Err(ReqErr::Err404))),
        },
        EventModel::Opened(c) => (finished, answer_opened(m.tokens, m.served, c)),
        EventModel::Listed(l) => match l {
            None => (finished, ActionModel::Respond(Err(ReqErr::Err403))),
            Some(es) => match first_index_entry(es) {
                Some(i) => (
                    ValidationModel { served: es[i].name, stage: Stage::AwaitingEntry, ..m },
                    ActionModel::OpenEntry(i),
                ),
                None => (finished, ActionModel::Respond(Err(ReqErr::Err404))),
            },
        },
    }
}

/// The entry chosen for a directory is its first listed regular file named
/// exactly `index.html`, `index.shtml` or `index.txt`; no other name (such as
/// `index.css`) is ever chosen, and a listing without such a file has none.
pub proof fn lemma_chosen_entry_is_an_index_file(es: Seq<EntryModel>)
    ensures
        first_index_entry(es) matches Some(i) ==> {
            &&& 0 <= i < es.len()
            &&& es[i].is_file
            &&& es[i].name == "index.html"@ || es[i].name == "index.shtml"@ || es[i].name
                == "index.txt"@
            &&& forall|j: int|
                0 <= j < i ==> !(#[trigger] es[j].is_file && (es[j].name == "index.html"@
                    || es[j].name == "index.shtml"@ || es[j].name == "index.txt"@))
        },
        first_index_entry(es) is None ==> forall|j: int|
            0 <= j < es.len() ==> !(#[trigger] es[j].is_file && (es[j].name == "index.html"@
                || es[j].name == "index.shtml"@ || es[j].name == "index.txt"@)),
    decreases es.len(),
{
    if es.len() > 0 {
        let rest = es.drop_first();
        lemma_chosen_entry_is_an_index_file(rest);
        assert forall|j: int| 0 < j < es.len() implies es[j] == rest[j - 1] by {}
    }
}

/// A directory is always listed: whatever its path ends with, learning that the
/// target is a directory leads to listing that very path.
pub proof fn lemma_directories_are_listed(m: ValidationModel)
    requires
        m.stage == Stage::AwaitingInspection,
    ensures
        next(m, EventModel::Inspected(PathKind::Directory)).1 == ActionModel::ListDirectory(m.path),
        next(m, EventModel::Inspected(PathKind::Directory)).0 == (ValidationModel {
            stage: Stage::AwaitingListing,
            ..m
        }),
{
}

/// A well-formed request for a directory whose listing begins with a readable
/// `index.html` is answered `200 OK` with that file's content, typed
/// `text/html`, whatever the requested path ends with.
pub proof fn lemma_directory_index_is_served(
    tokens: Seq<Seq<char>>,
    root: Seq<char>,
    kind: spec_fn(Seq<char>) -> PathKind,
    file: spec_fn(Seq<char>) -> Option<Seq<char>>,
    listing: spec_fn(Seq<char>) -> Option<Seq<EntryModel>>,
    entry_file: spec_fn(Seq<char>, int) -> Option<Seq<char>>,
    es: Seq<EntryModel>,
    content: Seq<char>,
)
    requires
        request_line_valid(tokens),
        !is_compressed(target_path(root, tokens)),
        kind(target_path(root, tokens)) == PathKind::Directory,
        listing(target_path(root, tokens)) == Some(es),
        es.len() > 0,
        es[0].is_file,
        es[0].name == "index.html"@,
        entry_file(target_path(root, tokens), 0) == Some(content),
    ensures
        serve(tokens, root, kind, file, listing, entry_file) matches Ok(r) && r.file_content
            == content && r.protocol == tokens[2] && r.status_message == "200 OK"@
            && r.content_type == "text/html"@,
{
    reveal_strlit("index.html");
    reveal_strlit(".html");
    reveal_strlit("text/");
    reveal_strlit("html");
    reveal_strlit("text/html");
    let name = es[0].name;
    assert(name.subrange(name.len() - 5, name.len() as int) == ".html"@);
    assert(crate::text::ends_with(name, ".html"@));
    assert("text/"@ + "html"@ == "text/html"@);
}

proof fn lemma_first_index_entry(es: Seq<EntryModel>, i: int)
    requires
        0 <= i <= es.len(),
        forall|j: int| 0 <= j < i ==> !is_index_entry(#[trigger] es[j]),
    ensures
        i < es.len() && is_index_entry(es[i]) ==> first_index_entry(es) == Some(i),
        i == es.len() ==> first_index_entry(es) is None,
    decreases i,
{
    if i > 0 {
        let rest = es.drop_first();
        assert forall|j: int| 0 <= j < i - 1 implies !is_index_entry(#[trigger] rest[j]) by {
            assert(rest[j] == es[j + 1]);
        }
        lemma_first_index_entry(rest, i - 1);
        assert(!is_index_entry(es[0]));
        if i < es.len() {
            assert(rest[i - 1] == es[i]);
        }
    }
}

fn is_index_name(name: &str) -> (r: bool)
    ensures
        r == (name@ == "index.html"@ || name@ == "index.shtml"@ || name@ == "index.txt"@),
{
    text_equals(name, "index.html") || text_equals(name, "index.shtml") || text_equals(
        name,
        "index.txt",
    )
}

/// The position of the first entry of `entries` that is a file named
/// `index.html`, `index.shtml` or `index.txt`.
pub fn find_index_entry(entries: &Vec<EntryInfo>) -> (r: Option<usize>)
    ensures
        r matches Some(i) ==> i < entries@.len() && first_index_entry(entry_views(entries@))
            == Some(i as int),
        r is None ==> first_index_entry(entry_views(entries@)) is None,
        r matches Some(i) ==> entries@[i as int].is_file && (entries@[i as int].name@
            == "index.html"@ || entries@[i as int].name@ == "index.shtml"@ || entries@[i as int].name@
            == "index.txt"@),
{
    let ghost es = entry_views(entries@);
    let mut i: usize = 0;
    while i < entries.len()
        invariant
            es == entry_views(entries@),
            i <= entries@.len(),
            forall|j: int| 0 <= j < i ==> !is_index_entry(#[trigger] es[j]),
        decreases entries@.len() - i,
    {
        assert(es[i as int] == entries@[i as int]@);
        if entries[i].is_file && is_index_name(entries[i].name.as_str()) {
            proof {
                lemma_first_index_entry(es, i as int);
            }
            return Some(i);
        }
        i = i + 1;
    }
    proof {
        lemma_first_index_entry(es, i as int);
    }
    None
}

impl Validation {
    /// Where the validation stands.
    pub fn stage(&self) -> (r: Stage)
        ensures
            r == self@.stage,
    {
        self.stage
    }

    /// Takes the next step after the caller performed the last action and
    /// found `event`.
    pub fn step(&mut self, event: Event) -> (r: Action)
        requires
            expects(old(self)@.stage, event@),
        ensures
            (final(self)@, r@) == next(old(self)@, event@),
    {
        proof {
            use_type_invariant(&*self);
        }
        match event {
            Event::RootFound(root) => {
                let mut path = root;
                path.append(self.tokens[1].as_str());
                proof {
                    assert(string_views(self.tokens@)[1] == self.tokens@[1]@);
                }
                let compressed = text_contains(path.as_str(), ".zip") || text_contains(
                    path.as_str(),
                    ".7z",
                );
                if compressed {
                    self.path = path;
                    self.stage = Stage::Finished;
                    Action::Respond(Err(ReqErr::Err403))
                } else {
                    let target = path.clone();
                    self.path = path;
                    self.stage = Stage::AwaitingInspection;
                    Action::InspectPath(target)
                }
            },
            Event::Inspected(kind) => match kind {
                PathKind::File => {
                    self.served = self.path.clone();
                    self.stage = Stage::AwaitingFile;
                    Action::OpenFile(self.path.clone())
                },
                PathKind::Directory => {
                    self.stage = Stage::AwaitingListing;
                    Action::ListDirectory(self.path.clone())
                },
                _ => {
                    self.stage = Stage::Finished;
                    Action::Respond(Err(ReqErr::Err404))
                },
            },
            Event::Opened(content) => {
                self.stage = Stage::Finished;
                match content {
                    Some(c) => Action::Respond(
                        Ok(generate_response(c, self.served.as_str(), &self.tokens)),
                    ),
                    None => Action::Respond(Err(ReqErr::Err403)),
                }
            },
            Event::Listed(listing) => match listing {
                None => {
                    self.stage = Stage::Finished;
                    Action::Respond(Err(ReqErr::Err403))
                },
                Some(entries) => match find_index_entry(&entries) {
                    Some(i) => {
                        proof {
                            assert(entry_views(entries@)[i as int] == entries@[i as int]@);
                        }
                        self.served = entries[i].name.clone();
                        self.stage = Stage::AwaitingEntry;
                        Action::OpenEntry(i)
                    },
                    None => {
                        self.stage = Stage::Finished;
                        Action::Respond(Err(ReqErr::Err404))
                    },
                },
            },
        }
    }
}

/// Begins the validation of the request whose tokens are `req_info` (method,
/// path, protocol, ...). `None` when [`PATH_PATTERN`] does not compile.
pub fn validate_request(req_info: &Vec<String>) -> (r: Option<(Validation, Action)>)
    ensures
        r is None <==> !regex_compiles(PATH_PATTERN@),
        r matches Some((v, a)) ==> (v@, a@) == start(string_views(req_info@)),
{
    let ok = match check_request_line(req_info) {
        Some(ok) => ok,
        None => {
            return None;
        },
    };
    let tokens = req_info.clone();
    if !ok {
        let v = Validation {
            tokens,
            path: String::new(),
            served: String::new(),
            stage: Stage::Finished,
        };
        return Some((v, Action::Respond(Err(ReqErr::Err400))));
    }
    let v = Validation {
        tokens,
        path: String::new(),
        served: String::new(),
        stage: Stage::AwaitingRoot,
    };
    Some((v, Action::LocateRoot))
}

/// The answer to the request `tokens`, decided in one piece from the root
/// directory `root` and what the file system holds: `kind` of a path, the
/// content of the `file` at a path (`None` when it cannot be opened), the
/// `listing` of a directory (`None` when it cannot be listed), and the content
/// of the `entry_file` with a given index in a directory's listing.
pub open spec fn serve(
    tokens: Seq<Seq<char>>,
    root: Seq<char>,
    kind: spec_fn(Seq<char>) -> PathKind,
    file: spec_fn(Seq<char>) -> Option<Seq<char>>,
    listing: spec_fn(Seq<char>) -> Option<Seq<EntryModel>>,
    entry_file: spec_fn(Seq<char>, int) -> Option<Seq<char>>,
) -> Result<ResponseModel, ReqErr> {
    if !request_line_valid(tokens) {
        Err(ReqErr::Err400)
    } else {
        let path = target_path(root, tokens);
        if is_compressed(path) {
            Err(ReqErr::Err403)
        } else {
            match kind(path) {
                PathKind::File => match file(path) {
                    Some(c) => Ok(served_response(c, path, tokens)),
                    None => Err(ReqErr::Err403),
                },
                PathKind::Directory => match listing(path) {
                    None => Err(ReqErr::Err403),
                    Some(es) => match first_index_entry(es) {
                        Some(i) => match entry_file(path, i) {
                            Some(c) => Ok(served_response(c, es[i].name, tokens)),
                            None => Err(ReqErr::Err403),
                        },
                        None => Err(ReqErr::Err404),
                    },
                },
                _ => Err(ReqErr::Err404),
            }
        }
    }
}

/// What the root directory and the file system answer to the action `a` of
/// the validation in state `m`.
pub open spec fn observe(
    m: ValidationModel,
    a: ActionModel,
    root: Seq<char>,
    kind: spec_fn(Seq<char>) -> PathKind,
    file: spec_fn(Seq<char>) -> Option<Seq<char>>,
    listing: spec_fn(Seq<char>) -> Option<Seq<EntryModel>>,
    entry_file: spec_fn(Seq<char>, int) -> Option<Seq<char>>,
) -> EventModel {
    match a {
        ActionModel::LocateRoot => EventModel::RootFound(root),
        ActionModel::InspectPath(p) => EventModel::Inspected(kind(p)),
        ActionModel::OpenFile(p) => EventModel::Opened(file(p)),
        ActionModel::ListDirectory(p) => EventModel::Listed(listing(p)),
        ActionModel::OpenEntry(i) => EventModel::Opened(entry_file(m.path, i)),
        ActionModel::Respond(_) => EventModel::Opened(None),
    }
}

/// The answer that at most `fuel` steps reach from state `m` and action `a`,
/// with every action answered by the root directory and the file system;
/// `None` when the steps run out or an answer is not what the state waits for.
pub open spec fn run(
    m: ValidationModel,
    a: ActionModel,
    root: Seq<char>,
    kind: spec_fn(Seq<char>) -> PathKind,
    file: spec_fn(Seq<char>) -> Option<Seq<char>>,
    listing: spec_fn(Seq<char>) -> Option<Seq<EntryModel>>,
    entry_file: spec_fn(Seq<char>, int) -> Option<Seq<char>>,
    fuel: nat,
) -> Option<Result<ResponseModel, ReqErr>>
    decreases fuel,
{
    match a {
        ActionModel::Respond(r) => Some(r),
        _ => {
            let e = observe(m, a, root, kind, file, listing, entry_file);
            if fuel == 0 || !expects(m.stage, e) {
                None
            } else {
                let (m2, a2) = next(m, e);
                run(m2, a2, root, kind, file, listing, entry_file, (fuel - 1) as nat)
            }
        },
    }
}

/// Validating a request step by step, with each action answered by the root
/// directory and the file system, follows the protocol of [`Validation::step`]
/// and reaches within four steps the answer that the one-piece rule [`serve`] gives.
pub proof fn lemma_steps_reach_served_answer(
    tokens: Seq<Seq<char>>,
    root: Seq<char>,
    kind: spec_fn(Seq<char>) -> PathKind,
    file: spec_fn(Seq<char>) -> Option<Seq<char>>,
    listing: spec_fn(Seq<char>) -> Option<Seq<EntryModel>>,
    entry_file: spec_fn(Seq<char>, int) -> Option<Seq<char>>,
)
    ensures
        run(start(tokens).0, start(tokens).1, root, kind, file, listing, entry_file, 4) == Some(
            serve(tokens, root, kind, file, listing, entry_file),
        ),
{
    reveal_with_fuel(run, 5);
}

} // verus!
