//! An HTTP exchange that follows 3xx redirects: the request is sent
//! again to the new target, on the same connection when scheme and
//! authority stay the same and the server keeps the connection open,
//! after a `Reset` (the caller reconnects) otherwise.
use vstd::prelude::*;

use io_http::rfc9112::send::{Http11Send, Http11SendError};

use crate::caldav::request::{
    header_pairs, host_header_value, host_value, HeaderPairs, Method, Request,
};
use crate::caldav::send::{
    check_status, http11_resume, is_2xx, open_exchange, url_accepts, utf8_lossy, utf8_lossy_of, HttpStep,
    Response, SendError, SendOk, StreamIo,
};
use crate::caldav::uri::{opt_view, uri_parts_of, uri_text, Uri, UriParts};

verus! {

/// How many redirects one exchange follows at most.
pub const MAX_REDIRECTS: usize = 8;

#[derive(Debug)]
pub enum FollowRedirectsResult<T> {
    /// The exchange finished.
    Done(SendOk<T>),
    /// The exchange failed.
    Failed(FollowRedirectsError),
    /// The exchange wants stream I/O.
    Io(StreamIo),
    /// Close the connection and open one to this URI before the next
    /// `resume` (with `None`).
    Reset(Uri),
}

#[derive(Debug)]
pub enum FollowRedirectsError {
    /// The final response has a status outside 2xx: status, body text.
    Response(u16, String),
    /// The body is not the expected XML document.
    ParseResponseBody(quick_xml::DeError),
    /// More than `MAX_REDIRECTS` redirects.
    TooManyRedirects,
    /// A redirect target that is not a URI.
    InvalidLocation(String),
    /// The request URI cannot be sent (the text that was refused).
    InvalidRequestUri(String),
    /// The HTTP/1.1 exchange itself failed.
    FollowRedirects(Http11SendError),
}

/// Same scheme and same authority.
pub open spec fn same_origin(a: UriParts, b: UriParts) -> bool {
    a.0 == b.0 && a.1 == b.1
}

/// `hs` with the value of each `Host` header set to the host of `target`
/// (left as it is when `target` has no host).
pub open spec fn retargeted_headers(hs: HeaderPairs, target: UriParts) -> HeaderPairs {
    hs.map_values(
        |h: (Seq<char>, Seq<char>)|
            if h.0 == "Host"@ && host_value(target) is Some {
                (h.0, host_value(target)->0)
            } else {
                h
            },
    )
}

pub fn opt_text_eq(a: &Option<String>, b: &Option<String>) -> (r: bool)
    ensures
        r == (opt_view(*a) == opt_view(*b)),
{
    match (a, b) {
        (Some(x), Some(y)) => x.eq(y),
        (None, None) => true,
        _ => false,
    }
}

/// Whether two URIs share scheme and authority.
pub fn is_same_origin(a: &Uri, b: &Uri) -> (r: bool)
    ensures
        r == same_origin(a.parts(), b.parts()),
{
    opt_text_eq(&a.scheme, &b.scheme) && opt_text_eq(&a.authority, &b.authority)
}

/// What a final (non-followed) response amounts to for a request last
/// aimed at `target`: a 2xx status finishes with the request, the
/// response, the keep-alive hint and the body text; another status fails
/// with that status and the body text.
pub open spec fn follow_outcome(
    target: UriParts,
    response: Response,
    keep_alive: bool,
    r: FollowRedirectsResult<String>,
) -> bool {
    if is_2xx(response.status) {
        (r matches FollowRedirectsResult::Done(ok) && ok.request.uri.parts() == target
            && ok.response == response && ok.keep_alive == keep_alive && ok.body@
            == utf8_lossy_of(response.body@))
    } else {
        (r matches FollowRedirectsResult::Failed(FollowRedirectsError::Response(s, t)) && s
            == response.status && t@ == utf8_lossy_of(response.body@))
    }
}

/// `request` aimed at `target`: same method, headers in the same order,
/// `Host` rewritten for the new target.
pub fn retarget(request: &Request, target: Uri) -> (r: Request)
    ensures
        r.method == request.method,
        r.uri.parts() == target.parts(),
        r.headers_view() == retargeted_headers(request.headers_view(), target.parts()),
{
    let host = host_header_value(&target);
    proof {
        reveal_strlit("Host");
    }
    let host_name = String::from_str("Host");
    let mut headers: Vec<(String, String)> = Vec::new();
    let n = request.headers.len();
    let mut i: usize = 0;
    while i < n
        invariant
            n == request.headers@.len(),
            i <= n,
            headers@.len() == i,
            host_name@ == "Host"@,
            host_value(target.parts()) == match host {
                Some(h) => Some(h@),
                None => None::<Seq<char>>,
            },
            header_pairs(headers@) =~= retargeted_headers(
                request.headers_view(),
                target.parts(),
            ).subrange(0, i as int),
        decreases n - i,
    {
        let name = &request.headers[i].0;
        let value = &request.headers[i].1;
        assert(request.headers_view()[i as int] == (name@, value@));
        let is_host = name.eq(&host_name);
        let v = match &host {
            Some(h) => {
                if is_host {
                    h.clone()
                } else {
                    value.clone()
                }
            },
            None => value.clone(),
        };
        headers.push((name.clone(), v));
        assert(header_pairs(headers@) =~= retargeted_headers(
            request.headers_view(),
            target.parts(),
        ).subrange(0, i + 1));
        i = i + 1;
    }
    Request { method: request.method, uri: target, headers }
}

/// Sends a request and follows the redirects the server answers with.
/// Polled with `resume` until it returns `Done` or `Failed`; it is not
/// polled again after that.
pub struct FollowRedirects {
    request: Request,
    body: Vec<u8>,
    exchange: Option<Http11Send>,
    redirects: usize,
    done: bool,
}

impl core::fmt::Debug for FollowRedirects {
    /// Relies on `core::fmt::Formatter::debug_struct`: shows `request` and `redirects` and `done` only; the
    /// codec is left out, as its buffers hold the `Authorization` header.
    #[verifier::external_body]
    fn fmt(&self, f: &mut core::fmt::Formatter<'_>) -> core::fmt::Result {
        f.debug_struct("FollowRedirects").field("request", &self.request).field("redirects", &self.redirects).field("done", &self.done).finish_non_exhaustive()
    }
}

impl FollowRedirects {
    pub closed spec fn is_done(&self) -> bool {
        self.done
    }

    /// The URI the request goes to now.
    pub closed spec fn target(&self) -> UriParts {
        self.request.uri.parts()
    }

    /// The request as it is sent now.
    pub closed spec fn request(&self) -> Request {
        self.request
    }

    /// The method of the request.
    pub closed spec fn method(&self) -> Method {
        self.request.method
    }

    /// The body of the request.
    pub closed spec fn body(&self) -> Seq<u8> {
        self.body@
    }

    /// How many redirects were followed.
    pub closed spec fn redirects(&self) -> nat {
        self.redirects as nat
    }

    /// No exchange is open: the next `resume` opens one to `target()`.
    pub closed spec fn awaits_connection(&self) -> bool {
        self.exchange is None
    }

    pub fn new(request: Request, body: Vec<u8>) -> (r: FollowRedirects)
        ensures
            !r.is_done(),
            r.redirects() == 0,
            r.target() == request.uri.parts(),
            r.request() == request,
            r.method() == request.method,
            r.body() == body@,
            r.awaits_connection(),
    {
        FollowRedirects { request, body, exchange: None, redirects: 0, done: false }
    }

    /// Advances the exchange. `arg` carries the bytes read after a
    /// `Read` (empty at end of stream), `None` otherwise.
    pub fn resume(&mut self, arg: Option<Vec<u8>>) -> (r: FollowRedirectsResult<String>)
        requires
            !old(self).is_done(),
            old(self).redirects() <= MAX_REDIRECTS,
        ensures
            final(self).redirects() <= MAX_REDIRECTS,
            (r is Io || r is Reset) <==> !final(self).is_done(),
            r is Reset ==> final(self).awaits_connection() && r->Reset_0.parts() == final(self).target(),
            r matches FollowRedirectsResult::Done(ok) ==> is_2xx(ok.response.status) && ok.body@
                == utf8_lossy_of(ok.response.body@) && ok.request.uri.parts() == final(self).target(),
            r matches FollowRedirectsResult::Failed(FollowRedirectsError::Response(s, _)) ==> !is_2xx(s),
            (r is Done || r matches FollowRedirectsResult::Failed(FollowRedirectsError::Response(_, _)))
                ==> exists|p: (Response, bool)| #[trigger] follow_outcome(final(self).target(), p.0, p.1, r),
            final(self).redirects() >= old(self).redirects(),
            final(self).redirects() == old(self).redirects() ==> final(self).target() == old(self).target(),
            r is Reset ==> final(self).redirects() > old(self).redirects(),
            r matches FollowRedirectsResult::Failed(FollowRedirectsError::InvalidRequestUri(u)) ==> u@
                == uri_text(final(self).target()) && !url_accepts(u@),
            old(self).awaits_connection() && !url_accepts(uri_text(old(self).target())) ==> r matches FollowRedirectsResult::Failed(
                FollowRedirectsError::InvalidRequestUri(_),
            ),
            r matches FollowRedirectsResult::Failed(FollowRedirectsError::TooManyRedirects) ==> final(self).redirects() == MAX_REDIRECTS,
            final(self).method() == old(self).method(),
            final(self).body() == old(self).body(),
    {
        let mut arg = arg;
        loop
            invariant
                !self.done,
                self.redirects <= MAX_REDIRECTS,
                self.redirects >= old(self).redirects,
                self.redirects == old(self).redirects ==> self.target() == old(self).target(),
                self.method() == old(self).method(),
                self.body() == old(self).body(),
                old(self).awaits_connection() && !url_accepts(uri_text(old(self).target()))
                    ==> self.redirects == old(self).redirects && self.exchange is None,
            decreases MAX_REDIRECTS - self.redirects,
        {
            let co = match self.exchange.take() {
                Some(co) => co,
                None => match open_exchange(&self.request, self.body.clone()) {
                    Some(co) => co,
                    None => {
                        self.done = true;
                        let uri = self.request.uri.as_string();
                        return FollowRedirectsResult::Failed(
                            FollowRedirectsError::InvalidRequestUri(uri),
                        );
                    },
                },
            };
            let (back, step) = http11_resume(co, arg);
            match step {
                HttpStep::Read => {
                    self.exchange = back;
                    return FollowRedirectsResult::Io(StreamIo::Read);
                },
                HttpStep::Write(bytes) => {
                    self.exchange = back;
                    return FollowRedirectsResult::Io(StreamIo::Write(bytes));
                },
                HttpStep::Failed(err) => {
                    self.done = true;
                    return FollowRedirectsResult::Failed(
                        FollowRedirectsError::FollowRedirects(err),
                    );
                },
                HttpStep::Done { response, keep_alive } => {
                    self.done = true;
                    let ghost resp = response;
                    let r = self.on_response(response, keep_alive);
                    assert(follow_outcome(self.target(), (resp, keep_alive).0, (resp, keep_alive).1, r));
                    return r;
                },
                HttpStep::Redirect { location, keep_alive, .. } => {
                    match self.on_redirect(location.as_str(), keep_alive) {
                        Some(r) => return r,
                        None => {},
                    }
                },
            }
            arg = None;
        }
    }

    /// Follows a redirect to `location`. Fails past `MAX_REDIRECTS`
    /// redirects or when `location` is not a URI. Otherwise the request
    /// is aimed at the new target; when scheme or authority change, or
    /// the server closes the connection, the result is `Reset` to the
    /// new target, else `None`: the exchange goes on on this connection.
    pub fn on_redirect(&mut self, location: &str, keep_alive: bool) -> (r: Option<
        FollowRedirectsResult<String>,
    >)
        requires
            !old(self).is_done(),
            old(self).redirects() <= MAX_REDIRECTS,
        ensures
            final(self).redirects() <= MAX_REDIRECTS,
            final(self).redirects() >= old(self).redirects(),
            final(self).redirects() == old(self).redirects() ==> final(self).target() == old(self).target(),
            final(self).method() == old(self).method(),
            final(self).body() == old(self).body(),
            old(self).redirects() == MAX_REDIRECTS ==> final(self).is_done() && (r matches Some(
                FollowRedirectsResult::Failed(FollowRedirectsError::TooManyRedirects),
            )),
            old(self).redirects() < MAX_REDIRECTS && uri_parts_of(location@) is None ==> final(self).is_done() && (r matches Some(
                FollowRedirectsResult::Failed(FollowRedirectsError::InvalidLocation(l)),
            ) && l@ == location@),
            old(self).redirects() < MAX_REDIRECTS && uri_parts_of(location@) is Some ==> {
                let t = uri_parts_of(location@)->0;
                &&& !final(self).is_done()
                &&& final(self).target() == t
                &&& final(self).redirects() == old(self).redirects() + 1
                &&& final(self).awaits_connection()
                &&& (!(keep_alive && same_origin(old(self).target(), t)) ==> (r matches Some(
                    FollowRedirectsResult::Reset(u),
                ) && u.parts() == t))
                &&& (keep_alive && same_origin(old(self).target(), t)) ==> r is None
            },
    {
        if self.redirects >= MAX_REDIRECTS {
            self.done = true;
            return Some(FollowRedirectsResult::Failed(FollowRedirectsError::TooManyRedirects));
        }
        let target = match Uri::parse(location) {
            Some(t) => t,
            None => {
                self.done = true;
                return Some(
                    FollowRedirectsResult::Failed(
                        FollowRedirectsError::InvalidLocation(String::from_str(location)),
                    ),
                );
            },
        };
        let reconnect = !(keep_alive && is_same_origin(&self.request.uri, &target));
        let reset_to = target.duplicate();
        self.request = retarget(&self.request, target);
        self.redirects = self.redirects + 1;
        self.exchange = None;
        if reconnect {
            Some(FollowRedirectsResult::Reset(reset_to))
        } else {
            None
        }
    }

    /// Reads a final response (see `follow_outcome`).
    pub fn on_response(&self, response: Response, keep_alive: bool) -> (r: FollowRedirectsResult<
        String,
    >)
        ensures
            !(r is Io || r is Reset),
            follow_outcome(self.target(), response, keep_alive, r),
            r matches FollowRedirectsResult::Done(ok) ==> is_2xx(ok.response.status) && ok.body@
                == utf8_lossy_of(ok.response.body@) && ok.request.uri.parts() == self.target()
                && ok.keep_alive == keep_alive,
            r matches FollowRedirectsResult::Failed(FollowRedirectsError::Response(s, t)) ==> s
                == response.status && !is_2xx(s) && t@ == utf8_lossy_of(response.body@),
    {
        match check_status(&response) {
            Ok(body) => {
                let request = retarget(&self.request, self.request.uri.duplicate());
                FollowRedirectsResult::Done(SendOk { request, response, keep_alive, body })
            },
            Err(SendError::Response(status, text)) => FollowRedirectsResult::Failed(
                FollowRedirectsError::Response(status, text),
            ),
            Err(_) => FollowRedirectsResult::Failed(
                FollowRedirectsError::Response(response.status, utf8_lossy(response.body.as_slice())),
            ),
        }
    }
}

} // verus!
