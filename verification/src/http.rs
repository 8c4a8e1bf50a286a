//! The loopback HTTP door: where it listens, which requests it knows, and
//! the status and body each one is answered with.
//!
//! Bodies are kept as values; putting them on the wire is the host's work.

use crate::fanout::outcome_view;
use crate::fault::{message_of, status_of, SyncError, SyncErrorView};
use crate::note::{Level, Note, NoteView};
use crate::payload::{LyricsPayload, PayloadView};
use crate::store::Store;
use crate::surface::{clone_payload, guard_view, read_outcome};
use crate::window::shown_view;
use vstd::prelude::*;
use vstd::string::*;

verus! {

/// The port on which producers find the lyrics service.
pub const LYRICS_SERVER_PORT: u16 = 21387;

/// Where the service listens: an IPv4 host and a port.
#[derive(Debug, Clone, Copy, PartialEq, Eq)]
pub struct ListenAddress {
    pub host: [u8; 4],
    pub port: u16,
}

/// The service's address: the loopback host, so that nothing outside this
/// machine can reach it, and the fixed port.
pub fn listen_address() -> (res: ListenAddress)
    ensures
        res.host@ == seq![127u8, 0u8, 0u8, 1u8],
        res.port == LYRICS_SERVER_PORT,
{
    ListenAddress { host: [127, 0, 0, 1], port: LYRICS_SERVER_PORT }
}

/// The log line for a service that failed to start or stopped: an error
/// line that carries the failure's text.
pub open spec fn startup_note_of(e: SyncErrorView) -> NoteView {
    NoteView { level: Level::Error, text: "桌面歌词服务启动失败: "@ + message_of(e) }
}

/// The line the host logs when the service could not be started or came to
/// an end. The rest of the application goes on without it.
pub fn startup_note(error: &SyncError) -> (res: Note)
    ensures
        res@ == startup_note_of(error@),
{
    let text = error.message();
    Note::headed(Level::Error, "桌面歌词服务启动失败: ", text.as_str())
}

/// The request methods the service answers.
#[derive(Debug, Clone, Copy, PartialEq, Eq, Structural)]
pub enum Method {
    Get,
    Post,
}

/// The requests the service knows.
#[derive(Debug, Clone, Copy, PartialEq, Eq, Structural)]
pub enum Endpoint {
    /// Liveness probe.
    Health,
    /// Returns the current record.
    ReadLyrics,
    /// Replaces the record and announces it.
    WriteLyrics,
    /// Brings the main window forward.
    ShowWindow,
}

/// The method an endpoint is reached with.
pub open spec fn method_of(endpoint: Endpoint) -> Method {
    match endpoint {
        Endpoint::Health => Method::Get,
        Endpoint::ReadLyrics => Method::Get,
        Endpoint::WriteLyrics => Method::Post,
        Endpoint::ShowWindow => Method::Post,
    }
}

/// The path an endpoint is reached under.
pub open spec fn path_of(endpoint: Endpoint) -> Seq<char> {
    match endpoint {
        Endpoint::Health => "/health"@,
        Endpoint::ReadLyrics => "/lyrics"@,
        Endpoint::WriteLyrics => "/lyrics"@,
        Endpoint::ShowWindow => "/show"@,
    }
}

/// The endpoint reached with `method` under `path`, if there is one.
pub open spec fn endpoint_at(method: Method, path: Seq<char>) -> Option<Endpoint> {
    if method == Method::Get && path == "/health"@ {
        Some(Endpoint::Health)
    } else if method == Method::Get && path == "/lyrics"@ {
        Some(Endpoint::ReadLyrics)
    } else if method == Method::Post && path == "/lyrics"@ {
        Some(Endpoint::WriteLyrics)
    } else if method == Method::Post && path == "/show"@ {
        Some(Endpoint::ShowWindow)
    } else {
        None
    }
}

/// Tells whether two texts hold the same characters.
fn same_str(a: &str, b: &str) -> (res: bool)
    ensures
        res == (a@ == b@),
{
    String::from_str(a) == String::from_str(b)
}

impl Endpoint {
    /// The method this endpoint is reached with.
    pub fn method(&self) -> (res: Method)
        ensures
            res == method_of(*self),
    {
        match self {
            Endpoint::Health => Method::Get,
            Endpoint::ReadLyrics => Method::Get,
            Endpoint::WriteLyrics => Method::Post,
            Endpoint::ShowWindow => Method::Post,
        }
    }

    /// The path this endpoint is reached under.
    pub fn path(&self) -> (res: &'static str)
        ensures
            res@ == path_of(*self),
    {
        match self {
            Endpoint::Health => "/health",
            Endpoint::ReadLyrics => "/lyrics",
            Endpoint::WriteLyrics => "/lyrics",
            Endpoint::ShowWindow => "/show",
        }
    }

    /// The endpoint that a method and a path name, if they name one.
    pub fn resolve(method: Method, path: &str) -> (res: Option<Endpoint>)
        ensures
            res == endpoint_at(method, path@),
    {
        match method {
            Method::Get => {
                if same_str(path, "/health") {
                    Some(Endpoint::Health)
                } else if same_str(path, "/lyrics") {
                    Some(Endpoint::ReadLyrics)
                } else {
                    None
                }
            },
            Method::Post => {
                if same_str(path, "/lyrics") {
                    Some(Endpoint::WriteLyrics)
                } else if same_str(path, "/show") {
                    Some(Endpoint::ShowWindow)
                } else {
                    None
                }
            },
        }
    }
}

/// Every endpoint is found again under its own method and path, and nothing
/// is found under a pair that is not some endpoint's own: no two endpoints
/// share both.
pub proof fn lemma_endpoints_are_distinct(method: Method, path: Seq<char>, endpoint: Endpoint)
    ensures
        endpoint_at(method_of(endpoint), path_of(endpoint)) == Some(endpoint),
        endpoint_at(method, path) == Some(endpoint) <==> method_of(endpoint) == method && path_of(
            endpoint,
        ) == path,
{
    reveal_strlit("/health");
    reveal_strlit("/lyrics");
    reveal_strlit("/show");
    assert("/health"@.len() == 7 && "/lyrics"@.len() == 7 && "/show"@.len() == 5);
    assert("/health"@[1] == 'h' && "/lyrics"@[1] == 'l');
}

/// Mathematical value of a [`Body`].
pub enum BodyView {
    Status(Seq<char>),
    Lyrics(PayloadView),
    Text(Seq<char>),
}

/// What a response carries.
#[derive(Debug, PartialEq)]
pub enum Body {
    /// An object with the single member `status`, holding this word.
    Status(String),
    /// The lyrics record, field by field.
    Lyrics(LyricsPayload),
    /// Plain text: the account of a failure.
    Text(String),
}

impl View for Body {
    type V = BodyView;

    open spec fn view(&self) -> BodyView {
        match *self {
            Body::Status(s) => BodyView::Status(s@),
            Body::Lyrics(p) => BodyView::Lyrics(p@),
            Body::Text(s) => BodyView::Text(s@),
        }
    }
}

/// Mathematical value of a [`Response`].
pub struct ResponseView {
    pub status: u16,
    pub body: BodyView,
}

/// The answer to one request: a status code and a body.
#[derive(Debug, PartialEq)]
pub struct Response {
    pub status: u16,
    pub body: Body,
}

impl View for Response {
    type V = ResponseView;

    open spec fn view(&self) -> ResponseView {
        ResponseView { status: self.status, body: self.body@ }
    }
}

/// The answer to a failed request: the failure's status and its text.
pub open spec fn failure_response(e: SyncErrorView) -> ResponseView {
    ResponseView { status: status_of(e), body: BodyView::Text(message_of(e)) }
}

/// The answer to the liveness probe.
pub open spec fn health_response() -> ResponseView {
    ResponseView { status: 200, body: BodyView::Status("ok"@) }
}

/// The answer to a request that reads or replaces the record: 200 with the
/// record, or the failure.
pub open spec fn lyrics_response(outcome: Result<PayloadView, SyncErrorView>) -> ResponseView {
    match outcome {
        Ok(record) => ResponseView { status: 200, body: BodyView::Lyrics(record) },
        Err(e) => failure_response(e),
    }
}

/// The answer to a request to show the window: 200 once it is shown, or the
/// failure.
pub open spec fn shown_response(outcome: Result<(), SyncErrorView>) -> ResponseView {
    match outcome {
        Ok(_) => ResponseView { status: 200, body: BodyView::Status("shown"@) },
        Err(e) => failure_response(e),
    }
}

/// Answers a failed request.
fn refuse(error: &SyncError) -> (res: Response)
    ensures
        res@ == failure_response(error@),
{
    Response { status: error.status(), body: Body::Text(error.message()) }
}

/// `GET /health`: always 200 with status `ok`, whatever the store holds.
pub fn handle_health() -> (res: Response)
    ensures
        res@ == health_response(),
{
    Response { status: 200, body: Body::Status(String::from_str("ok")) }
}

/// `GET /lyrics`: 200 with a copy of the record, or 500 with the failure's
/// text when the guard is broken.
pub fn handle_get_lyrics(guard: Option<&Store>) -> (res: Response)
    ensures
        res@ == lyrics_response(read_outcome(guard_view(guard))),
{
    match clone_payload(guard) {
        Ok(record) => Response { status: 200, body: Body::Lyrics(record) },
        Err(e) => refuse(&e),
    }
}

/// `POST /lyrics`, given how the update ended: 200 echoing the stored
/// record, or 500 with the failure's text.
///
/// A failed announcement is answered with 500 although the record was
/// stored: the caller learns that not everything asked for was done, and a
/// later read shows the record it sent.
pub fn handle_post_lyrics(outcome: Result<LyricsPayload, SyncError>) -> (res: Response)
    ensures
        res@ == lyrics_response(outcome_view(outcome)),
{
    match outcome {
        Ok(record) => Response { status: 200, body: Body::Lyrics(record) },
        Err(e) => refuse(&e),
    }
}

/// `POST /show`, given how the flow ended: 200 with status `shown`, 404 when
/// there is no main window, 500 when it could not be made visible.
pub fn handle_show_window(outcome: Result<(), SyncError>) -> (res: Response)
    ensures
        res@ == shown_response(shown_view(outcome)),
{
    match outcome {
        Ok(_) => Response { status: 200, body: Body::Status(String::from_str("shown")) },
        Err(e) => refuse(&e),
    }
}

} // verus!
