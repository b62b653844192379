//! Well-known URI discovery: one request to the configured URI, which
//! the server is expected to answer with a redirect whose `Location`
//! names the actual CalDAV endpoint.
use vstd::prelude::*;

use io_http::rfc9112::send::{Http11Send, Http11SendError};

use crate::caldav::config::CaldavConfig;
use crate::caldav::request::{header_pairs, HeaderPairs, Method, Request};
use crate::caldav::send::{http11_resume, open_exchange, url_accepts, utf8_lossy, utf8_lossy_of, HttpStep, Response, StreamIo};
use crate::caldav::uri::{uri_parts_of, uri_text, Uri, UriParts};

verus! {

#[derive(Debug)]
pub struct WellKnownOk {
    /// Where the redirect points.
    pub uri: Uri,
    /// The current connection may be reused for `uri`.
    pub keep_alive: bool,
}

#[derive(Debug)]
pub enum WellKnownError {
    /// The response is not a redirect: status, body text.
    NotRedirected(u16, String),
    /// The redirect has no `Location` header.
    MissingLocationHeader,
    /// The `Location` header is not ASCII.
    InvalidLocationHeader(String),
    /// The `Location` header is not a URI.
    InvalidLocationUri(String),
    /// The request URI cannot be sent (the text that was refused).
    InvalidRequestUri(String),
    /// The HTTP/1.1 exchange itself failed.
    Send(Http11SendError),
}

#[derive(Debug)]
pub enum WellKnownResult {
    /// The redirect was read.
    Done(WellKnownOk),
    /// The discovery failed.
    Failed(WellKnownError),
    /// The exchange wants stream I/O.
    Io(StreamIo),
}

pub open spec fn is_redirection(status: u16) -> bool {
    300 <= status < 400
}

/// The value of the first header named `name`.
pub open spec fn first_header(hs: HeaderPairs, name: Seq<char>) -> Option<Seq<char>>
    decreases hs.len(),
{
    if hs.len() == 0 {
        None
    } else if hs[0].0 == name {
        Some(hs[0].1)
    } else {
        first_header(hs.subrange(1, hs.len() as int), name)
    }
}

/// Whether the connection to `from` may be reused for `to`: the server
/// keeps it open, and `to` names no other scheme and no other authority.
pub open spec fn reusable(from: UriParts, to: UriParts, keep_alive: bool) -> bool {
    &&& keep_alive
    &&& (to.0 is None || to.0 == from.0)
    &&& (to.1 is None || to.1 == from.1)
}

/// What a response to the discovery request amounts to.
pub open spec fn discovery_outcome(
    from: UriParts,
    status: u16,
    headers: HeaderPairs,
    body: Seq<u8>,
    keep_alive: bool,
    r: Result<WellKnownOk, WellKnownError>,
) -> bool {
    if !is_redirection(status) {
        r matches Err(WellKnownError::NotRedirected(s, t)) && s == status && t@ == utf8_lossy_of(
            body,
        )
    } else {
        match first_header(headers, "location"@) {
            None => r matches Err(WellKnownError::MissingLocationHeader),
            Some(l) => if !vstd::utf8::is_ascii_chars(l) {
                r matches Err(WellKnownError::InvalidLocationHeader(x)) && x@ == l
            } else {
                match uri_parts_of(l) {
                    None => r matches Err(WellKnownError::InvalidLocationUri(x)) && x@ == l,
                    Some(to) => r matches Ok(ok) && ok.uri.parts() == to && ok.keep_alive
                        == reusable(from, to, keep_alive),
                }
            },
        }
    }
}

/// The first header of `headers` named `name`.
pub fn find_header<'a>(headers: &'a Vec<(String, String)>, name: &str) -> (r: Option<&'a String>)
    ensures
        match r {
            Some(v) => first_header(header_pairs(headers@), name@) == Some(v@),
            None => first_header(header_pairs(headers@), name@) is None,
        },
{
    let n = headers.len();
    let mut i: usize = 0;
    let wanted = String::from_str(name);
    assert(header_pairs(headers@).subrange(0, n as int) =~= header_pairs(headers@));
    while i < n
        invariant
            n == headers@.len(),
            i <= n,
            wanted@ == name@,
            first_header(header_pairs(headers@), name@) == first_header(
                header_pairs(headers@).subrange(i as int, n as int),
                name@,
            ),
        decreases n - i,
    {
        let ghost rest = header_pairs(headers@).subrange(i as int, n as int);
        assert(rest[0] == (headers@[i as int].0@, headers@[i as int].1@));
        if headers[i].0.eq(&wanted) {
            return Some(&headers[i].1);
        }
        assert(rest.subrange(1, rest.len() as int) =~= header_pairs(headers@).subrange(
            i + 1,
            n as int,
        ));
        i = i + 1;
    }
    assert(header_pairs(headers@).subrange(0, n as int) =~= header_pairs(headers@));
    None
}

/// Reads the discovery response to a request sent to `from`: a 3xx
/// status with an ASCII `Location` that parses as a URI gives that URI;
/// the connection is reusable when the server keeps it open and the
/// URI names no other scheme or authority.
pub fn discovered(from: &Uri, response: &Response, keep_alive: bool) -> (r: Result<
    WellKnownOk,
    WellKnownError,
>)
    ensures
        discovery_outcome(
            from.parts(),
            response.status,
            header_pairs(response.headers@),
            response.body@,
            keep_alive,
            r,
        ),
{
    if !(300 <= response.status && response.status < 400) {
        let body = utf8_lossy(response.body.as_slice());
        return Err(WellKnownError::NotRedirected(response.status, body));
    }
    proof {
        reveal_strlit("location");
    }
    let location = match find_header(&response.headers, "location") {
        Some(l) => l,
        None => return Err(WellKnownError::MissingLocationHeader),
    };
    if !location.is_ascii() {
        return Err(WellKnownError::InvalidLocationHeader(location.clone()));
    }
    let to = match Uri::parse(location.as_str()) {
        Some(u) => u,
        None => return Err(WellKnownError::InvalidLocationUri(location.clone())),
    };
    let same_scheme = match &to.scheme {
        Some(_) => crate::caldav::follow_redirects::opt_text_eq(&to.scheme, &from.scheme),
        None => true,
    };
    let same_authority = match &to.authority {
        Some(_) => crate::caldav::follow_redirects::opt_text_eq(&to.authority, &from.authority),
        None => true,
    };
    Ok(WellKnownOk { uri: to, keep_alive: keep_alive && same_scheme && same_authority })
}

/// The discovery result as a `Result` (I/O stands for nothing).
pub open spec fn as_result(r: WellKnownResult) -> Option<Result<WellKnownOk, WellKnownError>> {
    match r {
        WellKnownResult::Done(ok) => Some(Ok(ok)),
        WellKnownResult::Failed(e) => Some(Err(e)),
        WellKnownResult::Io(_) => None,
    }
}

/// What one step of the codec amounts to for a request sent to `from`:
/// reads and writes are passed on as I/O, a codec failure as `Send`, a
/// response as `discovery_outcome` says.
pub open spec fn known_outcome(from: UriParts, step: HttpStep, r: WellKnownResult) -> bool {
    match step {
        HttpStep::Read => r matches WellKnownResult::Io(StreamIo::Read),
        HttpStep::Write(b) => (r matches WellKnownResult::Io(StreamIo::Write(w)) && w == b),
        HttpStep::Failed(e) => (r matches WellKnownResult::Failed(WellKnownError::Send(x)) && x
            == e),
        HttpStep::Redirect { response, keep_alive, .. } => as_result(r) is Some
            && discovery_outcome(
            from,
            response.status,
            header_pairs(response.headers@),
            response.body@,
            keep_alive,
            as_result(r)->0,
        ),
        HttpStep::Done { response, keep_alive } => as_result(r) is Some && discovery_outcome(
            from,
            response.status,
            header_pairs(response.headers@),
            response.body@,
            keep_alive,
            as_result(r)->0,
        ),
    }
}

/// The result one step of the codec gives for a request sent to `from`
/// (see `known_outcome`).
pub fn known_step_result(from: &Uri, step: HttpStep) -> (r: WellKnownResult)
    ensures
        known_outcome(from.parts(), step, r),
{
    let (response, keep_alive) = match step {
        HttpStep::Read => return WellKnownResult::Io(StreamIo::Read),
        HttpStep::Write(bytes) => return WellKnownResult::Io(StreamIo::Write(bytes)),
        HttpStep::Failed(err) => return WellKnownResult::Failed(WellKnownError::Send(err)),
        HttpStep::Redirect { response, keep_alive, .. } => (response, keep_alive),
        HttpStep::Done { response, keep_alive } => (response, keep_alive),
    };
    match discovered(from, &response, keep_alive) {
        Ok(ok) => WellKnownResult::Done(ok),
        Err(err) => WellKnownResult::Failed(err),
    }
}

/// Sends one request (`GET` unless told otherwise) to the configured
/// URI and reads the redirect it is answered with. Polled with `resume`
/// until it returns `Done` or `Failed`.
pub struct WellKnown {
    from: Uri,
    method: Method,
    exchange: Option<Http11Send>,
    refused: Option<String>,
    done: bool,
}

impl core::fmt::Debug for WellKnown {
    /// Relies on `core::fmt::Formatter::debug_struct`: shows `from` and `method` and `done` only; the
    /// codec is left out, as its buffers hold the `Authorization` header.
    #[verifier::external_body]
    fn fmt(&self, f: &mut core::fmt::Formatter<'_>) -> core::fmt::Result {
        f.debug_struct("WellKnown").field("from", &self.from).field("method", &self.method).field("done", &self.done).finish_non_exhaustive()
    }
}

impl WellKnown {
    pub closed spec fn is_done(&self) -> bool {
        self.done
    }

    /// The URI the request goes to.
    pub closed spec fn target(&self) -> UriParts {
        self.from.parts()
    }

    /// The method of the request.
    pub closed spec fn method(&self) -> Method {
        self.method
    }

    /// The target URI was not accepted by the codec.
    pub closed spec fn refused(&self) -> bool {
        self.exchange is None
    }

    pub fn new(config: &CaldavConfig, method: Option<Method>) -> (r: WellKnown)
        ensures
            !r.is_done(),
            r.target() == config.uri.parts(),
            r.refused() <==> !url_accepts(uri_text(r.target())),
            r.method() == match method {
                Some(m) => m,
                None => Method::Get,
            },
    {
        let method = match method {
            Some(m) => m,
            None => Method::Get,
        };
        proof {
            reveal_strlit("");
        }
        let request = Request::new(config, method, "").unwrap();
        let from = request.uri.duplicate();
        match open_exchange(&request, Vec::new()) {
            Some(co) => WellKnown { from, method, exchange: Some(co), refused: None, done: false },
            None => {
                let uri = from.as_string();
                WellKnown { from, method, exchange: None, refused: Some(uri), done: false }
            },
        }
    }

    /// Advances the discovery. `arg` carries the bytes read after a
    /// `Read` (empty at end of stream), `None` otherwise.
    pub fn resume(&mut self, arg: Option<Vec<u8>>) -> (r: WellKnownResult)
        requires
            !old(self).is_done(),
        ensures
            r is Io <==> !final(self).is_done(),
            final(self).target() == old(self).target(),
            old(self).refused() ==> r matches WellKnownResult::Failed(
                WellKnownError::InvalidRequestUri(_),
            ),
            !old(self).refused() ==> exists|step: HttpStep| #[trigger]
                known_outcome(old(self).target(), step, r),
    {
        self.done = true;
        let co = match self.exchange.take() {
            Some(co) => co,
            None => {
                let uri = match self.refused.take() {
                    Some(u) => u,
                    None => String::new(),
                };
                return WellKnownResult::Failed(WellKnownError::InvalidRequestUri(uri));
            },
        };
        let (back, step) = http11_resume(co, arg);
        let ghost seen = step;
        let is_io = match &step {
            HttpStep::Read => true,
            HttpStep::Write(_) => true,
            _ => false,
        };
        if is_io {
            self.exchange = back;
            self.done = false;
        }
        let r = known_step_result(&self.from, step);
        assert(known_outcome(self.from.parts(), seen, r));
        assert(self.from == old(self).from);
        assert(known_outcome(old(self).target(), seen, r));
        r
    }
}

} // verus!
