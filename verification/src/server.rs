//! The streaming server that runs beside the shell: where it can be reached,
//! and what is kept of its output.

use crate::number::{decimal, format_u64};
use crate::playback::text_in;
use crate::text::{
    chars_of, join, joined, split, split_on, strip_prefix, strip_trailing, text_of, texts, trim,
    trimmed, without_prefix, without_trailing,
};
use crate::urls::{parse_url, url_parts, UrlPartsView};
use vstd::prelude::*;

verus! {

// ---------------------------------------------------------------------------
// The address
// ---------------------------------------------------------------------------

/// The address at which the server is reached on this machine, for the one that
/// it gave and its parts: only the port counts.
pub open spec fn local_endpoint(endpoint: Seq<char>, parts: Option<UrlPartsView>) -> Seq<char> {
    match parts {
        None => endpoint,
        Some(p) => match p.port {
            None => without_trailing(endpoint, '/'),
            Some(port) => "http://127.0.0.1:"@ + decimal(port as nat),
        },
    }
}

/// The address on this machine for a port, where there is one.
pub fn endpoint_for_port(endpoint: &str, port: Option<u16>) -> (local: String)
    ensures
        local@ == match port {
            None => without_trailing(endpoint@, '/'),
            Some(p) => "http://127.0.0.1:"@ + decimal(p as nat),
        },
{
    match port {
        None => strip_trailing(endpoint, '/'),
        Some(port) => {
            let mut local = "http://127.0.0.1:".to_string();
            local.append(format_u64(port as u64).as_str());
            local
        },
    }
}

/// The address at which the server is reached on this machine.
pub fn local_runtime_endpoint(endpoint: &str) -> (local: String)
    ensures
        local@ == local_endpoint(endpoint@, url_parts(endpoint@)),
{
    match parse_url(endpoint) {
        None => endpoint.to_string(),
        Some(parts) => endpoint_for_port(endpoint, parts.port),
    }
}

/// The address that a line of the server's output gives.
pub fn advertised_endpoint(line: &str) -> (endpoint: Option<String>)
    ensures
        match endpoint {
            Some(e) => without_prefix(line@, "EngineFS server started at"@) is Some && e@
                == trimmed(without_prefix(line@, "EngineFS server started at"@)->0),
            None => without_prefix(line@, "EngineFS server started at"@) is None,
        },
{
    match strip_prefix(line, "EngineFS server started at") {
        Some(rest) => Some(trim(rest.as_str())),
        None => None,
    }
}

// ---------------------------------------------------------------------------
// The output
// ---------------------------------------------------------------------------

/// A line without the carriage return at its end.
pub open spec fn without_return(line: Seq<char>) -> Seq<char> {
    if line.len() > 0 && line.last() == '\r' {
        line.drop_last()
    } else {
        line
    }
}

/// The lines that end: each without its end.
pub open spec fn ended_lines(pieces: Seq<Seq<char>>) -> Seq<Seq<char>> {
    pieces.map_values(|p: Seq<char>| without_return(p))
}

/// The lines of a text: those that end, and a last one that does not, where it
/// is not empty.
pub open spec fn lines_of(text: Seq<char>) -> Seq<Seq<char>> {
    let pieces = split_on(text, '\n');
    let ended = ended_lines(pieces.drop_last());
    if pieces.last().len() > 0 {
        ended.push(pieces.last())
    } else {
        ended
    }
}

/// The last of some lines, at most so many.
pub open spec fn last_lines(lines: Seq<Seq<char>>, limit: nat) -> Seq<Seq<char>> {
    if lines.len() <= limit {
        lines
    } else {
        lines.skip(lines.len() - limit)
    }
}

/// The end of an output, at most so many lines.
pub open spec fn log_end(text: Seq<char>, limit: nat) -> Seq<char> {
    joined(last_lines(lines_of(text), limit), "\n"@)
}

fn drop_return(line: &str) -> (bare: String)
    ensures
        bare@ == without_return(line@),
{
    let chars = chars_of(line);
    let n = chars.len();
    if n > 0 && chars[n - 1] == '\r' {
        let bare = text_of(&chars, 0, n - 1);
        assert(bare@ =~= line@.drop_last());
        bare
    } else {
        line.to_string()
    }
}

/// The lines of a text.
pub fn text_lines(text: &str) -> (lines: Vec<String>)
    ensures
        texts(lines@) == lines_of(text@),
{
    let pieces = split(text, '\n');
    let ghost views = split_on(text@, '\n');
    let last = pieces.len() - 1;
    let mut lines: Vec<String> = Vec::new();
    for i in 0..last
        invariant
            texts(pieces@) == views,
            last == pieces.len() - 1,
            lines.len() == i,
            forall|j: int| 0 <= j < i ==> (#[trigger] lines@[j])@ == without_return(views[j]),
    {
        assert(texts(pieces@)[i as int] == pieces@[i as int]@);
        lines.push(drop_return(pieces[i].as_str()));
    }
    assert(texts(lines@) =~= ended_lines(views.drop_last()));
    assert(texts(pieces@)[last as int] == pieces@[last as int]@);
    if !pieces[last].as_str().is_empty() {
        let ghost before = texts(lines@);
        lines.push(pieces[last].clone());
        assert(texts(lines@) =~= before.push(views.last()));
    }
    lines
}

/// The end of an output, at most so many lines.
pub fn log_tail(text: &str, limit: usize) -> (tail: String)
    ensures
        tail@ == log_end(text@, limit as nat),
{
    let lines = text_lines(text);
    let start: usize = if lines.len() <= limit {
        0
    } else {
        lines.len() - limit
    };
    let mut kept: Vec<String> = Vec::new();
    let mut i: usize = start;
    while i < lines.len()
        invariant
            start <= i <= lines.len(),
            kept.len() == i - start,
            forall|j: int| 0 <= j < kept.len() ==> (#[trigger] kept@[j])@ == lines@[start + j]@,
        decreases lines.len() - i,
    {
        kept.push(lines[i].clone());
        i = i + 1;
    }
    proof {
        let all = texts(lines@);
        assert(texts(kept@) =~= last_lines(all, limit as nat));
    }
    join(&kept, "\n")
}

/// What is known of a running server from its output.
#[derive(Debug)]
pub struct ServerOutput {
    /// The end of the output.
    pub lines: String,
    /// The server said where it can be reached.
    pub endpoint_sent: bool,
}

#[verifier::ext_equal]
pub struct ServerOutputView {
    pub lines: Seq<char>,
    pub endpoint_sent: bool,
}

impl View for ServerOutput {
    type V = ServerOutputView;

    open spec fn view(&self) -> ServerOutputView {
        ServerOutputView { lines: self.lines@, endpoint_sent: self.endpoint_sent }
    }
}

impl ServerOutputView {
    /// The address that a line gives, unless one was given before.
    pub open spec fn announced(self, line: Seq<char>) -> Option<Seq<char>> {
        match without_prefix(line, "EngineFS server started at"@) {
            Some(rest) => if self.endpoint_sent {
                None
            } else {
                Some(local_endpoint(trimmed(rest), url_parts(trimmed(rest))))
            },
            None => None,
        }
    }

    /// What is known after more output.
    pub open spec fn extended(self, more: Seq<char>, limit: nat) -> ServerOutputView {
        ServerOutputView { lines: log_end(self.lines + more, limit), ..self }
    }

    /// What is known after a line of output.
    pub open spec fn read_line(self, line: Seq<char>, limit: nat) -> ServerOutputView {
        ServerOutputView {
            endpoint_sent: self.endpoint_sent || self.announced(line) is Some,
            ..self.extended(line, limit)
        }
    }
}

impl ServerOutput {
    pub fn new() -> (output: ServerOutput)
        ensures
            output@ == (ServerOutputView { lines: Seq::empty(), endpoint_sent: false }),
    {
        ServerOutput { lines: String::new(), endpoint_sent: false }
    }

    /// Takes in what the server reports as errors.
    pub fn on_error_output(&mut self, more: &str, limit: usize)
        ensures
            final(self)@ == old(self)@.extended(more@, limit as nat),
    {
        let mut all = self.lines.clone();
        all.append(more);
        self.lines = log_tail(all.as_str(), limit);
    }

    /// Takes in a line of the server's output. The result is the address at
    /// which the server can be reached, the first time that it gives one.
    pub fn on_output_line(&mut self, line: &str, limit: usize) -> (endpoint: Option<String>)
        ensures
            final(self)@ == old(self)@.read_line(line@, limit as nat),
            text_in(endpoint) == old(self)@.announced(line@),
    {
        let mut endpoint: Option<String> = None;
        if !self.endpoint_sent {
            match advertised_endpoint(line) {
                Some(given) => {
                    endpoint = Some(local_runtime_endpoint(given.as_str()));
                    self.endpoint_sent = true;
                },
                None => {},
            }
        }
        self.on_error_output(line, limit);
        endpoint
    }
}

// ---------------------------------------------------------------------------
// Laws
// ---------------------------------------------------------------------------

/// A server is announced once: after a line that gives its address, no line
/// does.
pub proof fn servers_are_announced_once(
    output: ServerOutputView,
    first: Seq<char>,
    second: Seq<char>,
    limit: nat,
)
    requires
        output.announced(first) is Some,
    ensures
        output.read_line(first, limit).announced(second) is None,
{
}

/// What is kept is the end of the output, and not more than the limit.
pub proof fn kept_output_is_bounded(text: Seq<char>, limit: nat)
    ensures
        last_lines(lines_of(text), limit).len() <= limit,
        lines_of(text).len() <= limit ==> last_lines(lines_of(text), limit) == lines_of(text),
        last_lines(lines_of(text), limit) == lines_of(text).skip(
            lines_of(text).len() - last_lines(lines_of(text), limit).len(),
        ),
{
    let lines = lines_of(text);
    assert(lines.skip(0) =~= lines);
}

} // verus!
