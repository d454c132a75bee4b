//! The request line check: method, path pattern and protocol.
use crate::text::{starts_with, string_views, text_equals, text_starts_with};
use vstd::prelude::*;

verus! {

/// The error that `regex::Regex::new` reports for a pattern it cannot compile.
#[verifier::external_type_specification]
#[verifier::external_body]
pub struct ExRegexError(regex::Error);

/// Whether `regex::Regex::new` accepts `pattern`.
pub uninterp spec fn regex_compiles(pattern: Seq<char>) -> bool;

/// Whether the compiled `pattern` matches somewhere in `haystack`
/// (`regex::Regex::is_match`).
pub uninterp spec fn regex_finds_match(pattern: Seq<char>, haystack: Seq<char>) -> bool;

/// Compiles `pattern` with `regex::Regex::new` and, when that succeeds, asks
/// `regex::Regex::is_match` whether it matches somewhere in `haystack`.
/// Trusted: compilation succeeds exactly on the patterns that `regex_compiles`
/// names, and the answer is `regex_finds_match` of the pattern and the haystack;
/// what those two are is left to the regex crate.
#[verifier::external_body]
fn regex_is_match(pattern: &str, haystack: &str) -> (r: Result<bool, regex::Error>)
    ensures
        r is Ok <==> regex_compiles(pattern@),
        r matches Ok(found) ==> found == regex_finds_match(pattern@, haystack@),
{
    match regex::Regex::new(pattern) {
        Ok(re) => Ok(re.is_match(haystack)),
        Err(e) => Err(e),
    }
}

/// The shape of a requested path: a `/` followed by a word character, a digit,
/// `_` or `-`, and possibly more path segments. The hyphen stands last in each
/// class so that it is a literal `-` rather than the end of a range.
pub const PATH_PATTERN: &'static str = r"^(/[\w\d_-]+)*/[\w\d_-]+";

/// The request line is a well-formed `GET` command, given whether the path
/// matches [`PATH_PATTERN`].
pub open spec fn request_line_ok(tokens: Seq<Seq<char>>, path_matches: bool) -> bool {
    &&& tokens.len() >= 3
    &&& tokens[0] == "GET"@
    &&& path_matches
    &&& starts_with(tokens[2], "HTTP"@)
}

/// The request line is a well-formed `GET` command: at least three tokens, the
/// method `GET`, a path that matches [`PATH_PATTERN`], a protocol that begins
/// with `HTTP`.
pub open spec fn request_line_valid(tokens: Seq<Seq<char>>) -> bool {
    request_line_ok(tokens, tokens.len() >= 3 && regex_finds_match(PATH_PATTERN@, tokens[1]))
}

/// Decides whether the tokens `req_info` form a well-formed `GET` command, given
/// whether their path matches [`PATH_PATTERN`].
pub fn request_line_accepted(req_info: &Vec<String>, path_matches: bool) -> (r: bool)
    ensures
        r == request_line_ok(string_views(req_info@), path_matches),
        r ==> req_info@.len() >= 3 && req_info@[0]@ == seq!['G', 'E', 'T'],
{
    proof {
        reveal_strlit("GET");
        reveal_strlit("HTTP");
    }
    if req_info.len() < 3 {
        return false;
    }
    assert(string_views(req_info@)[0] == req_info@[0]@);
    assert(string_views(req_info@)[2] == req_info@[2]@);
    text_equals(req_info[0].as_str(), "GET") && path_matches && text_starts_with(
        req_info[2].as_str(),
        "HTTP",
    )
}

/// Only `GET` is served: a request line is accepted only when it has at least
/// three tokens, its path matches and its first token is exactly the three
/// characters `GET`; any other method (`HEAD`, `POST`, `get`, ...) is refused.
pub proof fn lemma_only_get_is_accepted(tokens: Seq<Seq<char>>, path_matches: bool)
    ensures
        request_line_ok(tokens, path_matches) ==> tokens.len() >= 3 && path_matches && tokens[0]
            == seq!['G', 'E', 'T'],
        request_line_valid(tokens) ==> tokens[0] == seq!['G', 'E', 'T'],
{
    reveal_strlit("GET");
}

/// Checks the request line `req_info`. `None` when [`PATH_PATTERN`] does not
/// compile; otherwise whether the line is a well-formed `GET` command.
pub fn check_request_line(req_info: &Vec<String>) -> (r: Option<bool>)
    ensures
        r is None <==> !regex_compiles(PATH_PATTERN@),
        r matches Some(ok) ==> ok == request_line_valid(string_views(req_info@)),
{
    let haystack: &str = if req_info.len() >= 3 {
        req_info[1].as_str()
    } else {
        ""
    };
    match regex_is_match(PATH_PATTERN, haystack) {
        Ok(found) => {
            let ok = request_line_accepted(req_info, req_info.len() >= 3 && found);
            proof {
                if req_info@.len() >= 3 {
                    assert(string_views(req_info@)[1] == req_info@[1]@);
                }
            }
            Some(ok)
        },
        Err(_) => None,
    }
}

} // verus!
