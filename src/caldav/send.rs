//! One HTTP/1.1 exchange, driven by `io-http`'s I/O-free codec, and the
//! rule that turns its response into a result: a 2xx status hands the
//! body on, any other status is an error carrying the body text.
use vstd::prelude::*;

use io_http::coroutine::{HttpCoroutine, HttpCoroutineState};
use io_http::rfc9110::request::HttpRequest;
use io_http::rfc9110::response::HttpResponse;
use io_http::rfc9110::send::HttpSendYield;
use io_http::rfc9112::send::{Http11Send, Http11SendError};

use crate::caldav::request::Request;
use crate::caldav::uri::uri_text;
use crate::item::ParseCalendarItemError;

verus! {

#[verifier::external_type_specification]
#[verifier::external_body]
pub struct ExHttpRequest(io_http::rfc9110::request::HttpRequest);

#[verifier::external_type_specification]
#[verifier::external_body]
pub struct ExHttp11Send(io_http::rfc9112::send::Http11Send);

#[verifier::external_type_specification]
#[verifier::external_body]
pub struct ExHttp11SendError(io_http::rfc9112::send::Http11SendError);

#[verifier::external_type_specification]
#[verifier::external_body]
pub struct ExDeError(quick_xml::DeError);

/// The stream I/O an exchange needs before it can go on.
#[derive(Clone, PartialEq, Eq)]
pub enum StreamIo {
    /// Read bytes from the stream and hand them to the next `resume`
    /// (an empty buffer means end of stream).
    Read,
    /// Write these bytes to the stream, then `resume` with `None`.
    Write(Vec<u8>),
}

impl core::fmt::Debug for StreamIo {
    /// Relies on `core::fmt::Formatter::debug_tuple`: a write shows its
    /// length, not its bytes, which hold the `Authorization` header.
    #[verifier::external_body]
    fn fmt(&self, f: &mut core::fmt::Formatter<'_>) -> core::fmt::Result {
        match self {
            StreamIo::Read => f.write_str("Read"),
            StreamIo::Write(bytes) => f.debug_tuple("Write").field(&bytes.len()).finish(),
        }
    }
}

/// A received response: status code, headers (names lower case) and body.
#[derive(Clone, Debug)]
pub struct Response {
    pub status: u16,
    pub headers: Vec<(String, String)>,
    pub body: Vec<u8>,
}

/// What one step of the HTTP/1.1 codec produced.
pub enum HttpStep {
    Read,
    Write(Vec<u8>),
    /// A 3xx response whose `Location` resolved to `location`.
    Redirect { location: String, response: Response, keep_alive: bool },
    Done { response: Response, keep_alive: bool },
    Failed(Http11SendError),
}

/// A finished exchange with its decoded body.
#[derive(Debug)]
pub struct SendOk<T> {
    pub request: Request,
    pub response: Response,
    /// Whether the connection may be reused for the next request.
    pub keep_alive: bool,
    pub body: T,
}

#[derive(Debug)]
pub enum SendError {
    /// The server answered with a status outside 2xx: status, body text.
    Response(u16, String),
    /// The body is not the expected XML document.
    ParseXmlResponseBody(quick_xml::DeError),
    /// The body is not an iCalendar object.
    ParseIcalResponseBody(ParseCalendarItemError),
    /// The request URI cannot be sent (the text that was refused).
    InvalidRequestUri(String),
    /// The HTTP/1.1 exchange itself failed.
    Send(Http11SendError),
}

/// What `resume` returns.
#[derive(Debug)]
pub enum SendResult<T> {
    /// The exchange finished.
    Done(SendOk<T>),
    /// The exchange failed.
    Failed(SendError),
    /// The exchange wants stream I/O.
    Io(StreamIo),
}

/// A body that is not read: the status alone tells success.
#[derive(Clone, Copy, Debug, PartialEq, Eq, Structural)]
pub struct Empty;

/// `d` is `r` with the body of a finished exchange dropped.
pub open spec fn discarded(r: SendResult<String>, d: SendResult<Empty>) -> bool {
    &&& (r is Io <==> d is Io)
    &&& (r is Failed <==> d is Failed)
    &&& (r matches SendResult::Done(ok) ==> (d matches SendResult::Done(e) && e.response
        == ok.response && e.keep_alive == ok.keep_alive && e.request == ok.request))
    &&& (r matches SendResult::Failed(err) ==> (d matches SendResult::Failed(e) && e == err))
    &&& (r matches SendResult::Io(io) ==> (d matches SendResult::Io(i) && i == io))
}

/// `r` with the body of a finished exchange dropped.
pub fn discard_body(r: SendResult<String>) -> (d: SendResult<Empty>)
    ensures
        discarded(r, d),
{
    match r {
        SendResult::Done(ok) => SendResult::Done(
            SendOk { request: ok.request, response: ok.response, keep_alive: ok.keep_alive, body: Empty },
        ),
        SendResult::Failed(err) => SendResult::Failed(err),
        SendResult::Io(io) => SendResult::Io(io),
    }
}

pub open spec fn is_2xx(status: u16) -> bool {
    200 <= status < 300
}

/// The text of `b`, invalid UTF-8 sequences replaced by U+FFFD.
pub uninterp spec fn utf8_lossy_of(b: Seq<u8>) -> Seq<char>;

/// Judges a finished response: a 2xx status hands on the body text,
/// another status fails with that status and the body text.
pub fn check_status(response: &Response) -> (r: Result<String, SendError>)
    ensures
        is_2xx(response.status) ==> r is Ok && r->Ok_0@ == utf8_lossy_of(response.body@),
        !is_2xx(response.status) ==> r is Err && match r->Err_0 {
            SendError::Response(s, t) => s == response.status && t@ == utf8_lossy_of(
                response.body@,
            ),
            _ => false,
        },
{
    let text = utf8_lossy(response.body.as_slice());
    if 200 <= response.status && response.status < 300 {
        Ok(text)
    } else {
        Err(SendError::Response(response.status, text))
    }
}

/// Whether the URL parser accepts `s`.
pub uninterp spec fn url_accepts(s: Seq<char>) -> bool;

/// Opens the HTTP/1.1 exchange for `request` with `body`: method,
/// target, headers in order, then body. `None` when the target URI is
/// not accepted as a URL.
pub(crate) fn open_exchange(request: &Request, body: Vec<u8>) -> (r: Option<Http11Send>)
    ensures
        r is Some <==> url_accepts(uri_text(request.uri.parts())),
{
    let target = request.uri.as_string();
    let mut req = match new_http_request(request.method.as_str(), target.as_str()) {
        Some(r) => r,
        None => return None,
    };
    let n = request.headers.len();
    let mut i: usize = 0;
    while i < n
        invariant
            n == request.headers@.len(),
            i <= n,
        decreases n - i,
    {
        let (name, value) = &request.headers[i];
        req = with_header(req, name.as_str(), value.as_str());
        i = i + 1;
    }
    Some(new_http11_send(with_body(req, body)))
}

/// What a finished response amounts to, for `request`: a 2xx status
/// finishes with the request, the response, the keep-alive hint and the
/// body text; another status fails with that status and the body text.
pub open spec fn response_outcome(
    request: Request,
    response: Response,
    keep_alive: bool,
    r: SendResult<String>,
) -> bool {
    if is_2xx(response.status) {
        (r matches SendResult::Done(ok) && ok.request == request && ok.response == response
            && ok.keep_alive == keep_alive && ok.body@ == utf8_lossy_of(response.body@))
    } else {
        (r matches SendResult::Failed(SendError::Response(s, t)) && s == response.status && t@
            == utf8_lossy_of(response.body@))
    }
}

/// What one step of the codec amounts to: reads and writes are passed
/// on as I/O, a codec failure as `Send`, a response (a 3xx one included)
/// as `response_outcome` says.
pub open spec fn step_outcome(request: Request, step: HttpStep, r: SendResult<String>) -> bool {
    match step {
        HttpStep::Read => r matches SendResult::Io(StreamIo::Read),
        HttpStep::Write(b) => (r matches SendResult::Io(StreamIo::Write(w)) && w == b),
        HttpStep::Failed(e) => (r matches SendResult::Failed(SendError::Send(x)) && x == e),
        HttpStep::Redirect { response, keep_alive, .. } => response_outcome(
            request,
            response,
            keep_alive,
            r,
        ),
        HttpStep::Done { response, keep_alive } => response_outcome(
            request,
            response,
            keep_alive,
            r,
        ),
    }
}

/// The result one step of the codec gives for `request` (see `step_outcome`).
pub fn step_result(request: Request, step: HttpStep) -> (r: SendResult<String>)
    ensures
        step_outcome(request, step, r),
{
    match step {
        HttpStep::Read => SendResult::Io(StreamIo::Read),
        HttpStep::Write(bytes) => SendResult::Io(StreamIo::Write(bytes)),
        HttpStep::Failed(err) => SendResult::Failed(SendError::Send(err)),
        HttpStep::Redirect { response, keep_alive, .. } => response_result(
            request,
            response,
            keep_alive,
        ),
        HttpStep::Done { response, keep_alive } => response_result(request, response, keep_alive),
    }
}

fn response_result(request: Request, response: Response, keep_alive: bool) -> (r: SendResult<
    String,
>)
    ensures
        response_outcome(request, response, keep_alive, r),
{
    match check_status(&response) {
        Ok(body) => SendResult::Done(SendOk { request, response, keep_alive, body }),
        Err(err) => SendResult::Failed(err),
    }
}

/// Drives one HTTP exchange and hands back the body text of a 2xx
/// response. Polled with `resume` until it returns `Done` or `Failed`;
/// it is not polled again after that.
pub struct Send {
    request: Option<Request>,
    sent_body: Vec<u8>,
    exchange: Option<Http11Send>,
    refused: Option<String>,
    done: bool,
}

impl core::fmt::Debug for Send {
    /// Relies on `core::fmt::Formatter::debug_struct`: shows `request` and `done` only; the
    /// codec is left out, as its buffers hold the `Authorization` header.
    #[verifier::external_body]
    fn fmt(&self, f: &mut core::fmt::Formatter<'_>) -> core::fmt::Result {
        f.debug_struct("Send").field("request", &self.request).field("done", &self.done).finish_non_exhaustive()
    }
}

impl Send {
    /// The exchange has ended; `resume` may not be called any more.
    pub closed spec fn is_done(&self) -> bool {
        self.done || self.request is None || (self.exchange is None && self.refused is None)
    }

    /// The request this exchange sends.
    pub closed spec fn request(&self) -> Request {
        self.request->0
    }

    /// The body this exchange sends.
    pub closed spec fn body(&self) -> Seq<u8> {
        self.sent_body@
    }

    /// The target URI was not accepted by the codec: the exchange fails
    /// with `InvalidRequestUri` without any I/O.
    pub closed spec fn refused(&self) -> bool {
        self.exchange is None
    }

    /// What one `resume` on this exchange may give: `InvalidRequestUri`
    /// when the target was refused, otherwise the outcome of some step of
    /// the codec (which step depends on the bytes the codec was fed).
    pub open spec fn resume_outcome(&self, r: SendResult<String>) -> bool {
        if self.refused() {
            r matches SendResult::Failed(SendError::InvalidRequestUri(_))
        } else {
            exists|step: HttpStep| #[trigger] step_outcome(self.request(), step, r)
        }
    }

    /// An exchange that sends `request` with `body`.
    pub fn new(request: Request, body: Vec<u8>) -> (r: Send)
        ensures
            !r.is_done(),
            r.request() == request,
            r.body() == body@,
            r.refused() <==> !url_accepts(uri_text(request.uri.parts())),
    {
        let sent_body = body.clone();
        match open_exchange(&request, body) {
            Some(co) => Send {
                request: Some(request),
                sent_body,
                exchange: Some(co),
                refused: None,
                done: false,
            },
            None => {
                let uri = request.uri.as_string();
                Send { request: Some(request), sent_body, exchange: None, refused: Some(uri), done: false }
            },
        }
    }

    /// Advances the exchange. `arg` carries the bytes read after a
    /// `Read` (empty at end of stream), `None` otherwise.
    pub fn resume(&mut self, arg: Option<Vec<u8>>) -> (r: SendResult<String>)
        requires
            !old(self).is_done(),
        ensures
            r is Io <==> !final(self).is_done(),
            old(self).resume_outcome(r),
            r is Io ==> final(self).request() == old(self).request() && final(self).body()
                == old(self).body() && !final(self).refused(),
            r matches SendResult::Done(ok) ==> is_2xx(ok.response.status) && ok.body@
                == utf8_lossy_of(ok.response.body@) && ok.request == old(self).request(),
            r matches SendResult::Failed(SendError::Response(s, _)) ==> !is_2xx(s),
    {
        let ghost request = self.request->0;
        let co = match self.exchange.take() {
            Some(co) => co,
            None => {
                self.done = true;
                let uri = match self.refused.take() {
                    Some(u) => u,
                    None => String::new(),
                };
                return SendResult::Failed(SendError::InvalidRequestUri(uri));
            },
        };
        let (back, step) = http11_resume(co, arg);
        let ghost seen = step;
        match step {
            HttpStep::Read => {
                self.exchange = back;
                let r = SendResult::Io(StreamIo::Read);
                assert(step_outcome(request, seen, r));
                r
            },
            HttpStep::Write(bytes) => {
                self.exchange = back;
                let r = SendResult::Io(StreamIo::Write(bytes));
                assert(step_outcome(request, seen, r));
                r
            },
            step => {
                self.done = true;
                let req = self.request.take().unwrap();
                let r = step_result(req, step);
                assert(step_outcome(request, seen, r));
                r
            },
        }
    }
}

/// Relies on `url::Url::parse` for the target: a request with `method`
/// to `url`, no headers and an empty body; `None` when `url` does not parse.
#[verifier::external_body]
fn new_http_request(method: &str, url: &str) -> (r: Option<HttpRequest>)
    ensures
        r is Some <==> url_accepts(url@),
{
    let url = url::Url::parse(url).ok()?;
    Some(HttpRequest { method: method.to_string(), url, headers: Vec::new(), body: Vec::new() })
}

/// Relies on `io_http::rfc9110::request::HttpRequest::header`: appends one header.
#[verifier::external_body]
fn with_header(req: HttpRequest, name: &str, value: &str) -> HttpRequest {
    req.header(name, value)
}

/// Relies on `io_http::rfc9110::request::HttpRequest::body`: sets the body.
#[verifier::external_body]
fn with_body(req: HttpRequest, body: Vec<u8>) -> HttpRequest {
    req.body(body)
}

/// Relies on `io_http::rfc9112::send::Http11Send::new`: the codec that
/// writes `req` and reads its response.
#[verifier::external_body]
pub(crate) fn new_http11_send(req: HttpRequest) -> Http11Send {
    Http11Send::new(req)
}

/// Relies on `Http11Send`'s `HttpCoroutine::resume` for one step of the
/// exchange; each state it returns becomes the step of the same name.
/// The codec is handed back after a read or a write only: io-http panics
/// when a finished exchange is resumed.
#[verifier::external_body]
pub(crate) fn http11_resume(co: Http11Send, arg: Option<Vec<u8>>) -> (r: (Option<Http11Send>, HttpStep))
    ensures
        r.0 is Some <==> (r.1 is Read || r.1 is Write),
{
    let mut co = co;
    let plain = |r: HttpResponse| Response { status: r.status.0, headers: r.headers, body: r.body };
    match co.resume(arg.as_deref()) {
        HttpCoroutineState::Yielded(HttpSendYield::WantsRead) => (Some(co), HttpStep::Read),
        HttpCoroutineState::Yielded(HttpSendYield::WantsWrite(b)) => (Some(co), HttpStep::Write(b)),
        HttpCoroutineState::Yielded(HttpSendYield::WantsRedirect { url, response, keep_alive, .. }) => {
            (None, HttpStep::Redirect { location: url.to_string(), response: plain(response), keep_alive })
        },
        HttpCoroutineState::Complete(Ok(o)) => (None, HttpStep::Done { response: plain(o.response), keep_alive: o.keep_alive }),
        HttpCoroutineState::Complete(Err(err)) => (None, HttpStep::Failed(err)),
    }
}

/// Relies on `String::from_utf8_lossy`.
#[verifier::external_body]
pub(crate) fn utf8_lossy(b: &[u8]) -> (r: String)
    ensures
        r@ == utf8_lossy_of(b@),
{
    String::from_utf8_lossy(b).into_owned()
}

} // verus!
