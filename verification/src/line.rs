//! The access-log line: Common Log Format, with an optional latency at the
//! end.
//!
//! ```text
//! <client-ip> - - [<timestamp>] "<method> <path> <protocol-version>" <status> <length>[ - <duration>]
//! ```

use crate::decimal::{decimal_text, digit_char, push_decimal};
use crate::duration::{duration_text, push_duration};
use crate::timestamp::{clf_timestamp, Timestamp};
use vstd::prelude::*;
use vstd::string::StringExecFns;

verus! {

/// What a line says of the request. Method, path and protocol version are
/// written as they are given.
#[derive(Debug, PartialEq, Eq)]
pub struct RequestContext {
    /// The remote peer's address, if the server knows it.
    pub client_ip: Option<String>,
    pub method: String,
    pub path: String,
    pub protocol_version: String,
}

/// A [`RequestContext`] with its texts as sequences of characters.
pub struct RequestView {
    pub client_ip: Option<Seq<char>>,
    pub method: Seq<char>,
    pub path: Seq<char>,
    pub protocol_version: Seq<char>,
}

impl View for RequestContext {
    type V = RequestView;

    open spec fn view(&self) -> RequestView {
        RequestView {
            client_ip: match self.client_ip {
                Some(client_ip) => Some(client_ip@),
                None => None,
            },
            method: self.method@,
            path: self.path@,
            protocol_version: self.protocol_version@,
        }
    }
}

/// What a line says of the response.
#[derive(Clone, Copy, Debug, PartialEq, Eq, Structural)]
pub struct ResponseOutcome {
    pub status_code: u16,
    /// The response's content length, if it declares one.
    pub content_length: Option<u64>,
}

/// Why no line can be written for an exchange. A line always carries an
/// address and a length, and no placeholder stands in for either.
#[derive(Clone, Copy, Debug, PartialEq, Eq, Structural)]
pub enum LogError {
    /// The client's address is not known.
    MissingClientAddress,
    /// The response declares no content length.
    MissingContentLength,
}

/// The line up to and including the content length.
pub open spec fn access_text(
    client_ip: Seq<char>,
    timestamp: Seq<char>,
    method: Seq<char>,
    path: Seq<char>,
    protocol_version: Seq<char>,
    status_code: nat,
    content_length: nat,
) -> Seq<char> {
    client_ip + seq![' ', '-', ' ', '-', ' ', '['] + timestamp + seq![']', ' ', '"'] + method
        + seq![' '] + path + seq![' '] + protocol_version + seq!['"', ' ']
        + decimal_text(status_code) + seq![' '] + decimal_text(content_length)
}

/// What the latency adds to a line: nothing if it is left out, otherwise a
/// separating ` - ` and the latency's text.
pub open spec fn duration_suffix(elapsed: Option<int>) -> Seq<char> {
    match elapsed {
        None => Seq::empty(),
        Some(micros) => seq![' ', '-', ' '] + duration_text(micros),
    }
}

/// The complete line.
pub open spec fn clf_line(
    client_ip: Seq<char>,
    timestamp: Seq<char>,
    method: Seq<char>,
    path: Seq<char>,
    protocol_version: Seq<char>,
    status_code: nat,
    content_length: nat,
    elapsed: Option<int>,
) -> Seq<char> {
    access_text(client_ip, timestamp, method, path, protocol_version, status_code, content_length)
        + duration_suffix(elapsed)
}

/// A latency in microseconds as the integer it stands for.
pub open spec fn elapsed_view(elapsed: Option<i64>) -> Option<int> {
    match elapsed {
        None => None,
        Some(micros) => Some(micros as int),
    }
}

/// Which error, if any, keeps an exchange from being logged. A missing
/// address is reported before a missing length.
pub open spec fn line_error(request: RequestView, response: ResponseOutcome) -> Option<LogError> {
    if request.client_ip is None {
        Some(LogError::MissingClientAddress)
    } else if response.content_length is None {
        Some(LogError::MissingContentLength)
    } else {
        None
    }
}

/// The line for an exchange that began at `start`, where the address and the
/// length are known.
pub open spec fn line_text(
    start: Timestamp,
    request: RequestView,
    response: ResponseOutcome,
    elapsed: Option<int>,
) -> Seq<char> {
    clf_line(
        request.client_ip->0,
        clf_timestamp(start.secs(), start.nanos()),
        request.method,
        request.path,
        request.protocol_version,
        response.status_code as nat,
        response.content_length->0 as nat,
        elapsed,
    )
}

/// Assembles a line from its fields, the timestamp already in its text
/// form. The latency, in microseconds, is appended only if given.
pub fn assemble_line(
    client_ip: &str,
    timestamp: &str,
    method: &str,
    path: &str,
    protocol_version: &str,
    status_code: u16,
    content_length: u64,
    elapsed: Option<i64>,
) -> (line: String)
    ensures
        line@ == clf_line(
            client_ip@,
            timestamp@,
            method@,
            path@,
            protocol_version@,
            status_code as nat,
            content_length as nat,
            elapsed_view(elapsed),
        ),
{
    proof {
        reveal_strlit(" - - [");
        reveal_strlit("] \"");
        reveal_strlit(" ");
        reveal_strlit("\" ");
        reveal_strlit(" - ");
    }
    let mut line = String::new();
    line.append(client_ip);
    line.append(" - - [");
    line.append(timestamp);
    line.append("] \"");
    line.append(method);
    line.append(" ");
    line.append(path);
    line.append(" ");
    line.append(protocol_version);
    line.append("\" ");
    push_decimal(&mut line, status_code as u64);
    line.append(" ");
    push_decimal(&mut line, content_length);
    match elapsed {
        Some(micros) => {
            line.append(" - ");
            push_duration(&mut line, micros);
        },
        None => {},
    }
    line
}

/// The line for an exchange that began at `start`, or the reason why there
/// is none. The latency, in microseconds, is appended only if given.
pub fn format_line(
    start: &Timestamp,
    request: &RequestContext,
    response: &ResponseOutcome,
    elapsed: Option<i64>,
) -> (line: Result<String, LogError>)
    ensures
        match line_error(request@, *response) {
            Some(error) => line == Err::<String, LogError>(error),
            None => line matches Ok(text) && text@ == line_text(
                *start,
                request@,
                *response,
                elapsed_view(elapsed),
            ),
        },
{
    let client_ip = match &request.client_ip {
        Some(client_ip) => client_ip,
        None => { return Err(LogError::MissingClientAddress); },
    };
    let content_length = match response.content_length {
        Some(content_length) => content_length,
        None => { return Err(LogError::MissingContentLength); },
    };
    let timestamp = start.clf_text();
    Ok(
        assemble_line(
            client_ip.as_str(),
            timestamp.as_str(),
            request.method.as_str(),
            request.path.as_str(),
            request.protocol_version.as_str(),
            response.status_code,
            content_length,
            elapsed,
        ),
    )
}

/// A line without latency ends where the content length ends: its last
/// character is the length's last digit, with no separator after it.
pub proof fn law_no_duration_no_suffix(
    client_ip: Seq<char>,
    timestamp: Seq<char>,
    method: Seq<char>,
    path: Seq<char>,
    protocol_version: Seq<char>,
    status_code: nat,
    content_length: nat,
)
    ensures
        clf_line(
            client_ip,
            timestamp,
            method,
            path,
            protocol_version,
            status_code,
            content_length,
            None,
        ) == access_text(
            client_ip,
            timestamp,
            method,
            path,
            protocol_version,
            status_code,
            content_length,
        ),
        access_text(
            client_ip,
            timestamp,
            method,
            path,
            protocol_version,
            status_code,
            content_length,
        ).last() == digit_char((content_length % 10) as int),
{
}

/// A line with latency is the line without it, then ` - `, then the
/// latency's text.
pub proof fn law_duration_is_appended(
    client_ip: Seq<char>,
    timestamp: Seq<char>,
    method: Seq<char>,
    path: Seq<char>,
    protocol_version: Seq<char>,
    status_code: nat,
    content_length: nat,
    micros: int,
)
    ensures
        clf_line(
            client_ip,
            timestamp,
            method,
            path,
            protocol_version,
            status_code,
            content_length,
            Some(micros),
        ) == clf_line(
            client_ip,
            timestamp,
            method,
            path,
            protocol_version,
            status_code,
            content_length,
            None,
        ) + seq![' ', '-', ' '] + duration_text(micros),
{
}

} // verus!
