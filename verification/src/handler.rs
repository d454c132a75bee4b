//! What the server writes back to the client and to its log.
use crate::response::{error_text, response_text, served_response, ReqErr, Response, ResponseModel};
use crate::text::{starts_with, string_views};
use crate::validation::result_view;
use std::fmt::Write;
use vstd::prelude::*;

verus! {

/// The name of the time of day `secs` seconds after the Unix epoch, in UTC,
/// written with the `strftime`-style `format` by chrono; `None` when chrono
/// cannot represent the time or the format is invalid.
pub uninterp spec fn utc_time_text(secs: i64, format: Seq<char>) -> Option<Seq<char>>;

/// `chrono::DateTime::<Utc>::from_timestamp(secs, 0)` written out with
/// `DateTime::format(format)`. Trusted: the text is `utc_time_text(secs, format)`,
/// and `None` comes exactly when that is `None`; what the text holds is left to chrono.
#[verifier::external_body]
fn format_utc_time(secs: i64, format: &str) -> (r: Option<String>)
    ensures
        match r {
            Some(t) => utc_time_text(secs, format@) == Some(t@),
            None => utc_time_text(secs, format@) is None,
        },
{
    match chrono::DateTime::<chrono::Utc>::from_timestamp(secs, 0) {
        Some(time) => {
            let mut text = String::new();
            match write!(text, "{}", time.format(format)) {
                Ok(()) => Some(text),
                Err(_) => None,
            }
        },
        None => None,
    }
}

/// How the log writes the time of a request.
pub const LOG_TIME_FORMAT: &'static str = "%Y-%m-%d %H:%M:%S";

/// The first `n` tokens, each followed by a space.
pub open spec fn token_list(tokens: Seq<Seq<char>>, n: nat) -> Seq<char>
    decreases n,
{
    if n == 0 {
        Seq::empty()
    } else {
        token_list(tokens, (n - 1) as nat) + tokens[n - 1] + " "@
    }
}

/// How many of the tokens the log records: the method, path and protocol, as
/// far as the request has them.
pub open spec fn logged_count(tokens: Seq<Seq<char>>) -> nat {
    if tokens.len() < 3 {
        tokens.len()
    } else {
        3
    }
}

/// The log line of a request: its time, its method, path and protocol (those
/// it has), and the status it was answered with.
pub open spec fn log_line_text(time: Seq<char>, tokens: Seq<Seq<char>>, status: Seq<char>) -> Seq<
    char,
> {
    time + "  -  "@ + token_list(tokens, logged_count(tokens)) + " -  "@ + status
}

/// The log line of the request `req_info` answered at `now_secs` (seconds since
/// the Unix epoch) with `status`; `None` when the time cannot be written.
pub fn log_line(req_info: &Vec<String>, now_secs: i64, status: &str) -> (r: Option<String>)
    ensures
        match utc_time_text(now_secs, LOG_TIME_FORMAT@) {
            Some(t) => r matches Some(line) && line@ == log_line_text(
                t,
                string_views(req_info@),
                status@,
            ),
            None => r is None,
        },
{
    let time = match format_utc_time(now_secs, LOG_TIME_FORMAT) {
        Some(t) => t,
        None => {
            return None;
        },
    };
    let ghost tokens = string_views(req_info@);
    let count: usize = if req_info.len() < 3 {
        req_info.len()
    } else {
        3
    };
    let mut line = time;
    line.append("  -  ");
    let mut i: usize = 0;
    while i < count
        invariant
            tokens == string_views(req_info@),
            count <= req_info@.len(),
            i <= count,
            line@ == utc_time_text(now_secs, LOG_TIME_FORMAT@)->0 + "  -  "@ + token_list(
                tokens,
                i as nat,
            ),
        decreases count - i,
    {
        assert(tokens[i as int] == req_info@[i as int]@);
        line.append(req_info[i].as_str());
        line.append(" ");
        i = i + 1;
    }
    line.append(" -  ");
    line.append(status);
    Some(line)
}

/// The text written back to the client: the response, or `HTTP/1.0` and the
/// refusal's status line.
pub open spec fn reply(r: Result<ResponseModel, ReqErr>) -> Seq<char> {
    match r {
        Ok(m) => response_text(m),
        Err(e) => "HTTP/1.0 "@ + error_text(e),
    }
}

/// The status the log records: `200 OK` for a response, the refusal's status line otherwise.
pub open spec fn logged_status(r: Result<ResponseModel, ReqErr>) -> Seq<char> {
    match r {
        Ok(_) => "200 OK\n"@,
        Err(e) => error_text(e),
    }
}

/// The text written back to the client for the answer `result`.
pub fn reply_text(result: &Result<Response, ReqErr>) -> (r: String)
    ensures
        r@ == reply(result_view(*result)),
{
    match result {
        Ok(response) => response.to_text(),
        Err(e) => {
            let mut r = String::from_str("HTTP/1.0 ");
            let status = e.to_text();
            r.append(status.as_str());
            r
        },
    }
}

/// The status the log records for the answer `result`.
pub fn log_status(result: &Result<Response, ReqErr>) -> (r: String)
    ensures
        r@ == logged_status(result_view(*result)),
{
    match result {
        Ok(_) => String::from_str("200 OK\n"),
        Err(e) => e.to_text(),
    }
}

/// The log and the client are told the same status: the reply to a refusal is
/// `HTTP/1.0`, a space and the logged status line, and the reply to a served
/// file begins with the request's protocol, a space and the logged status line.
pub proof fn lemma_log_agrees_with_reply(
    content: Seq<char>,
    file_name: Seq<char>,
    tokens: Seq<Seq<char>>,
    e: ReqErr,
)
    requires
        tokens.len() >= 3,
    ensures
        reply(Err(e)) == "HTTP/1.0 "@ + logged_status(Err(e)),
        starts_with(
            reply(Ok(served_response(content, file_name, tokens))),
            tokens[2] + " "@ + logged_status(Ok(served_response(content, file_name, tokens))),
        ),
{
    reveal_strlit("200 OK");
    reveal_strlit("200 OK\n");
    reveal_strlit("\n");
    let m = served_response(content, file_name, tokens);
    let head = m.protocol + " "@ + m.status_message + "\n"@;
    let text = reply(Ok(m));
    assert("200 OK\n"@ == "200 OK"@ + "\n"@);
    assert(tokens[2] + " "@ + logged_status(Ok(m)) == head);
    let tail = m.web_server_name + "\nContent-type: "@ + m.content_type + "\nContent-length: "@
        + crate::text::decimal(m.content_length as nat) + "\n\n"@ + m.file_content;
    assert(text == head + tail);
    assert(text.subrange(0, head.len() as int) == head);
}

} // verus!
