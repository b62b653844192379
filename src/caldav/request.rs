//! HTTP requests as CalDAV needs them: method, target URI composed from
//! the configured endpoint, `Host` and `Authorization` headers, and the
//! per-workflow `Depth` and `Content-Type` headers.
use vstd::prelude::*;

use crate::caldav::config::{expose_secret_text, CaldavAuth, CaldavConfig};
use crate::caldav::uri::{
    joined_path_and_query, opt_view, push_uri_path, with_path_and_query, Uri, UriParts,
};

verus! {

/// The request methods the workflows use, WebDAV extensions included.
#[derive(Clone, Copy, Debug, PartialEq, Eq, Structural)]
pub enum Method {
    Get,
    Put,
    Delete,
    Propfind,
    Proppatch,
    Mkcol,
    Report,
}

pub open spec fn method_name(m: Method) -> Seq<char> {
    match m {
        Method::Get => "GET"@,
        Method::Put => "PUT"@,
        Method::Delete => "DELETE"@,
        Method::Propfind => "PROPFIND"@,
        Method::Proppatch => "PROPPATCH"@,
        Method::Mkcol => "MKCOL"@,
        Method::Report => "REPORT"@,
    }
}

impl Method {
    /// The method's name on the request line.
    pub fn as_str(&self) -> (r: &'static str)
        ensures
            r@ == method_name(*self),
    {
        match self {
            Method::Get => "GET",
            Method::Put => "PUT",
            Method::Delete => "DELETE",
            Method::Propfind => "PROPFIND",
            Method::Proppatch => "PROPPATCH",
            Method::Mkcol => "MKCOL",
            Method::Report => "REPORT",
        }
    }
}

/// Header names and values as character sequences.
pub type HeaderPairs = Seq<(Seq<char>, Seq<char>)>;

pub open spec fn header_pairs(h: Seq<(String, String)>) -> HeaderPairs {
    h.map_values(|p: (String, String)| (p.0@, p.1@))
}

/// Base64 (standard alphabet, padded) of `b`.
pub uninterp spec fn base64_of(b: Seq<u8>) -> Seq<char>;

/// Decimal digits of `n`, most significant first, without leading zeros.
pub open spec fn decimal(n: nat) -> Seq<char>
    decreases n,
{
    let d = seq!['0', '1', '2', '3', '4', '5', '6', '7', '8', '9'];
    if n < 10 {
        seq![d[n as int]]
    } else {
        decimal(n / 10).push(d[(n % 10) as int])
    }
}

/// The `Host` header value of a URI: `host`, or `host:port` when the
/// port is explicit; none without a host.
pub open spec fn host_value(u: UriParts) -> Option<Seq<char>> {
    match u.2 {
        Some(h) => match u.3 {
            Some(p) => Some(h + ":"@ + p),
            None => Some(h),
        },
        None => None,
    }
}

pub open spec fn host_headers(u: UriParts) -> HeaderPairs {
    match host_value(u) {
        Some(v) => seq![("Host"@, v)],
        None => Seq::empty(),
    }
}

pub open spec fn basic_value(username: Seq<char>, password: Seq<char>) -> Seq<char> {
    "Basic "@ + base64_of(vstd::utf8::encode_utf8(username + ":"@ + password))
}

pub open spec fn bearer_value(token: Seq<char>) -> Seq<char> {
    "Bearer "@ + token
}

/// `hs` is what `auth` puts in the headers: nothing for `Plain`, one
/// `Authorization` header built from the configured username and secret
/// otherwise.
pub open spec fn auth_headers_match(auth: CaldavAuth, hs: HeaderPairs) -> bool {
    match auth {
        CaldavAuth::Plain => hs.len() == 0,
        CaldavAuth::Basic { username, password } => hs == seq![
            ("Authorization"@, basic_value(username@, password@)),
        ],
        CaldavAuth::Bearer { token } => hs == seq![("Authorization"@, bearer_value(token@))],
    }
}

/// The target of a request to `path` under the configured URI (see
/// `push_uri_path`); `None` when the composed path does not parse.
pub open spec fn target_for(config: CaldavConfig, path: Seq<char>) -> Option<UriParts> {
    if path.len() == 0 {
        Some(config.uri.parts())
    } else {
        with_path_and_query(
            config.uri.parts(),
            joined_path_and_query(config.uri.parts(), config.uri.has_path_and_query(), path),
        )
    }
}

/// `req` is what `Request::new(config, method, path)` builds, with the
/// headers `extra` appended: the method, the target of `path` under the
/// configured URI, `Host`, `Authorization` from the configured
/// credentials, then `extra`.
pub open spec fn built_with(
    config: CaldavConfig,
    method: Method,
    path: Seq<char>,
    req: Request,
    extra: HeaderPairs,
) -> bool {
    let hs = req.headers_view();
    let n = host_headers(config.uri.parts()).len();
    &&& req.method == method
    &&& target_for(config, path) == Some(req.uri.parts())
    &&& hs.len() >= n + extra.len()
    &&& hs.subrange(0, n as int) == host_headers(config.uri.parts())
    &&& auth_headers_match(config.auth, hs.subrange(n as int, hs.len() - extra.len()))
    &&& hs.subrange(hs.len() - extra.len(), hs.len() as int) == extra
}

/// Appending a header to a built request keeps it built, with that
/// header added to the appended ones.
pub proof fn lemma_built_push(
    config: CaldavConfig,
    method: Method,
    path: Seq<char>,
    req: Request,
    extra: HeaderPairs,
    next: Request,
    h: (Seq<char>, Seq<char>),
)
    requires
        built_with(config, method, path, req, extra),
        next.method == req.method,
        next.uri == req.uri,
        next.headers_view() == req.headers_view().push(h),
    ensures
        built_with(config, method, path, next, extra.push(h)),
{
    let hs = req.headers_view();
    let hs2 = next.headers_view();
    let n = host_headers(config.uri.parts()).len();
    assert(hs2.subrange(0, n as int) =~= hs.subrange(0, n as int));
    assert(hs2.subrange(n as int, hs2.len() - extra.push(h).len()) =~= hs.subrange(
        n as int,
        hs.len() - extra.len(),
    ));
    assert(hs2.subrange(hs2.len() - extra.push(h).len(), hs2.len() as int) =~= extra.push(h));
}

/// A request about to be sent: method, target and headers in order.
pub struct Request {
    pub method: Method,
    pub uri: Uri,
    pub headers: Vec<(String, String)>,
}

impl core::fmt::Debug for Request {
    /// Relies on `core::fmt::Formatter::debug_struct`: shows the method
    /// and the target only; the headers are left out, as `Authorization`
    /// carries the credentials.
    #[verifier::external_body]
    fn fmt(&self, f: &mut core::fmt::Formatter<'_>) -> core::fmt::Result {
        f.debug_struct("Request").field("method", &self.method).field("uri", &self.uri).finish_non_exhaustive()
    }
}

impl Request {
    pub open spec fn headers_view(&self) -> HeaderPairs {
        header_pairs(self.headers@)
    }

    /// A request to `path` under the configured URI (see
    /// `push_uri_path`), with `Host` from the configured URI and
    /// `Authorization` from the configured credentials. `None` when the
    /// composed path does not parse.
    pub fn new(config: &CaldavConfig, method: Method, path: &str) -> (r: Option<Request>)
        ensures
            path@.len() == 0 ==> r is Some,
            r is Some <==> target_for(*config, path@) is Some,
            r is Some ==> r->0.uri.parts() == target_for(*config, path@)->0,
            r is Some ==> built_with(*config, method, path@, r->0, Seq::empty()),
            match r {
                Some(req) => {
                    &&& req.method == method
                    &&& (path@.len() == 0 ==> req.uri.parts() == config.uri.parts())
                    &&& (path@.len() > 0 ==> with_path_and_query(
                        config.uri.parts(),
                        joined_path_and_query(
                            config.uri.parts(),
                            config.uri.has_path_and_query(),
                            path@,
                        ),
                    ) == Some(req.uri.parts()))
                    &&& req.headers_view().subrange(0, host_headers(config.uri.parts()).len() as int)
                        == host_headers(config.uri.parts())
                    &&& auth_headers_match(
                        config.auth,
                        req.headers_view().subrange(
                            host_headers(config.uri.parts()).len() as int,
                            req.headers_view().len() as int,
                        ),
                    )
                },
                None => path@.len() > 0 && with_path_and_query(
                    config.uri.parts(),
                    joined_path_and_query(
                        config.uri.parts(),
                        config.uri.has_path_and_query(),
                        path@,
                    ),
                ) is None,
            },
    {
        let uri = match push_uri_path(config.uri.duplicate(), path) {
            Some(u) => u,
            None => return None,
        };
        let mut headers: Vec<(String, String)> = Vec::new();
        match host_header_value(&config.uri) {
            Some(v) => headers.push((String::from_str("Host"), v)),
            None => {},
        }
        let ghost n = headers@.len();
        assert(header_pairs(headers@) =~= host_headers(config.uri.parts()));
        match &config.auth {
            CaldavAuth::Plain => {},
            CaldavAuth::Basic { username, password } => {
                let secret = expose_secret_text(password);
                let v = basic_authorization(username.as_str(), secret.as_str());
                headers.push((String::from_str("Authorization"), v));
                assert(header_pairs(headers@).subrange(n as int, headers@.len() as int) =~= seq![
                    ("Authorization"@, basic_value(username@, secret@)),
                ]);
            },
            CaldavAuth::Bearer { token } => {
                let secret = expose_secret_text(token);
                let v = bearer_authorization(secret.as_str());
                headers.push((String::from_str("Authorization"), v));
                assert(header_pairs(headers@).subrange(n as int, headers@.len() as int) =~= seq![
                    ("Authorization"@, bearer_value(secret@)),
                ]);
            },
        }
        assert(header_pairs(headers@).subrange(0, n as int) =~= host_headers(config.uri.parts()));
        assert(header_pairs(headers@).subrange(n as int, headers@.len() as int) =~= header_pairs(
            headers@,
        ).subrange(n as int, header_pairs(headers@).len() as int));
        let req = Request { method, uri, headers };
        assert(req.headers_view().subrange(
            req.headers_view().len() - 0,
            req.headers_view().len() as int,
        ) =~= Seq::<(Seq<char>, Seq<char>)>::empty());
        assert(req.headers_view().subrange(
            host_headers(config.uri.parts()).len() as int,
            req.headers_view().len() - 0,
        ) =~= req.headers_view().subrange(
            host_headers(config.uri.parts()).len() as int,
            req.headers_view().len() as int,
        ));
        Some(req)
    }

    pub fn delete(config: &CaldavConfig, path: &str) -> (r: Option<Request>)
        ensures
            r is Some <==> target_for(*config, path@) is Some,
            r is Some ==> r->0.method == Method::Delete && r->0.uri.parts() == target_for(
                *config,
                path@,
            )->0,
            r is Some ==> built_with(*config, Method::Delete, path@, r->0, Seq::empty()),
    {
        Self::new(config, Method::Delete, path)
    }

    pub fn get(config: &CaldavConfig, path: &str) -> (r: Option<Request>)
        ensures
            r is Some <==> target_for(*config, path@) is Some,
            r is Some ==> r->0.method == Method::Get && r->0.uri.parts() == target_for(
                *config,
                path@,
            )->0,
            r is Some ==> built_with(*config, Method::Get, path@, r->0, Seq::empty()),
    {
        Self::new(config, Method::Get, path)
    }

    pub fn mkcol(config: &CaldavConfig, path: &str) -> (r: Option<Request>)
        ensures
            r is Some <==> target_for(*config, path@) is Some,
            r is Some ==> r->0.method == Method::Mkcol && r->0.uri.parts() == target_for(
                *config,
                path@,
            )->0,
            r is Some ==> built_with(*config, Method::Mkcol, path@, r->0, Seq::empty()),
    {
        Self::new(config, Method::Mkcol, path)
    }

    pub fn proppatch(config: &CaldavConfig, path: &str) -> (r: Option<Request>)
        ensures
            r is Some <==> target_for(*config, path@) is Some,
            r is Some ==> r->0.method == Method::Proppatch && r->0.uri.parts() == target_for(
                *config,
                path@,
            )->0,
            r is Some ==> built_with(*config, Method::Proppatch, path@, r->0, Seq::empty()),
    {
        Self::new(config, Method::Proppatch, path)
    }

    pub fn propfind(config: &CaldavConfig, path: &str) -> (r: Option<Request>)
        ensures
            r is Some <==> target_for(*config, path@) is Some,
            r is Some ==> r->0.method == Method::Propfind && r->0.uri.parts() == target_for(
                *config,
                path@,
            )->0,
            r is Some ==> built_with(*config, Method::Propfind, path@, r->0, Seq::empty()),
    {
        Self::new(config, Method::Propfind, path)
    }

    pub fn put(config: &CaldavConfig, path: &str) -> (r: Option<Request>)
        ensures
            r is Some <==> target_for(*config, path@) is Some,
            r is Some ==> r->0.method == Method::Put && r->0.uri.parts() == target_for(
                *config,
                path@,
            )->0,
            r is Some ==> built_with(*config, Method::Put, path@, r->0, Seq::empty()),
    {
        Self::new(config, Method::Put, path)
    }

    pub fn report(config: &CaldavConfig, path: &str) -> (r: Option<Request>)
        ensures
            r is Some <==> target_for(*config, path@) is Some,
            r is Some ==> r->0.method == Method::Report && r->0.uri.parts() == target_for(
                *config,
                path@,
            )->0,
            r is Some ==> built_with(*config, Method::Report, path@, r->0, Seq::empty()),
    {
        Self::new(config, Method::Report, path)
    }

    /// Adds `Depth: depth`.
    pub fn depth(self, depth: usize) -> (r: Self)
        ensures
            r.method == self.method,
            r.uri == self.uri,
            r.headers_view() == self.headers_view().push(("Depth"@, decimal(depth as nat))),
            forall|c: CaldavConfig, m: Method, p: Seq<char>, e: HeaderPairs|
                built_with(c, m, p, self, e) ==> #[trigger] built_with(c, m, p, r, e.push(("Depth"@, decimal(depth as nat)))),
    {
        let mut req = self;
        let v = decimal_text(depth);
        req.headers.push((String::from_str("Depth"), v));
        assert(req.headers_view() =~= self.headers_view().push(("Depth"@, decimal(depth as nat))));
        assert forall|c: CaldavConfig, m: Method, p: Seq<char>, e: HeaderPairs|
            built_with(c, m, p, self, e) implies #[trigger] built_with(
            c,
            m,
            p,
            req,
            e.push(("Depth"@, decimal(depth as nat))),
        ) by {
            lemma_built_push(c, m, p, self, e, req, ("Depth"@, decimal(depth as nat)));
        }
        req
    }

    /// Adds `Content-Type: value`.
    pub fn content_type(self, value: &str) -> (r: Self)
        ensures
            r.method == self.method,
            r.uri == self.uri,
            r.headers_view() == self.headers_view().push(("Content-Type"@, value@)),
            forall|c: CaldavConfig, m: Method, p: Seq<char>, e: HeaderPairs|
                built_with(c, m, p, self, e) ==> #[trigger] built_with(c, m, p, r, e.push(("Content-Type"@, value@))),
    {
        let mut req = self;
        req.headers.push((String::from_str("Content-Type"), String::from_str(value)));
        assert(req.headers_view() =~= self.headers_view().push(("Content-Type"@, value@)));
        assert forall|c: CaldavConfig, m: Method, p: Seq<char>, e: HeaderPairs|
            built_with(c, m, p, self, e) implies #[trigger] built_with(
            c,
            m,
            p,
            req,
            e.push(("Content-Type"@, value@)),
        ) by {
            lemma_built_push(c, m, p, self, e, req, ("Content-Type"@, value@));
        }
        req
    }

    /// Adds `Content-Type: text/xml; charset=utf-8`.
    pub fn content_type_xml(self) -> (r: Self)
        ensures
            r.method == self.method,
            r.uri == self.uri,
            r.headers_view() == self.headers_view().push(
                ("Content-Type"@, "text/xml; charset=utf-8"@),
            ),
            forall|c: CaldavConfig, m: Method, p: Seq<char>, e: HeaderPairs|
                built_with(c, m, p, self, e) ==> #[trigger] built_with(c, m, p, r, e.push(("Content-Type"@, "text/xml; charset=utf-8"@))),
    {
        self.content_type("text/xml; charset=utf-8")
    }

    /// Adds `Content-Type: text/calendar; charset=utf-8`.
    pub fn content_type_ical(self) -> (r: Self)
        ensures
            r.method == self.method,
            r.uri == self.uri,
            r.headers_view() == self.headers_view().push(
                ("Content-Type"@, "text/calendar; charset=utf-8"@),
            ),
            forall|c: CaldavConfig, m: Method, p: Seq<char>, e: HeaderPairs|
                built_with(c, m, p, self, e) ==> #[trigger] built_with(c, m, p, r, e.push(("Content-Type"@, "text/calendar; charset=utf-8"@))),
    {
        self.content_type("text/calendar; charset=utf-8")
    }
}

/// The `Host` header value for `uri`.
pub fn host_header_value(uri: &Uri) -> (r: Option<String>)
    ensures
        opt_view(r) == host_value(uri.parts()),
{
    match &uri.host {
        Some(h) => {
            let mut v = String::from_str(h.as_str());
            match &uri.port {
                Some(p) => {
                    proof {
                        reveal_strlit(":");
                    }
                    v.append(":");
                    v.append(p.as_str());
                },
                None => {},
            }
            Some(v)
        },
        None => None,
    }
}

/// `Basic ` followed by the base64 of `username:password`.
pub fn basic_authorization(username: &str, password: &str) -> (r: String)
    ensures
        r@ == basic_value(username@, password@),
{
    let mut plain = String::from_str(username);
    proof {
        reveal_strlit(":");
    }
    plain.append(":");
    plain.append(password);
    let digest = encode_base64(plain.as_str().as_bytes());
    let mut v = String::from_str("Basic ");
    v.append(digest.as_str());
    v
}

/// `Bearer ` followed by the token.
pub fn bearer_authorization(token: &str) -> (r: String)
    ensures
        r@ == bearer_value(token@),
{
    let mut v = String::from_str("Bearer ");
    v.append(token);
    v
}

/// Relies on `base64::Engine::encode` with the standard padded alphabet.
#[verifier::external_body]
fn encode_base64(bytes: &[u8]) -> (r: String)
    ensures
        r@ == base64_of(bytes@),
{
    base64::Engine::encode(&base64::prelude::BASE64_STANDARD, bytes)
}

/// The digit `d` as text.
fn digit_text(d: usize) -> (r: &'static str)
    requires
        d < 10,
    ensures
        r@ == seq![seq!['0', '1', '2', '3', '4', '5', '6', '7', '8', '9'][d as int]],
{
    proof {
        reveal_strlit("0");
        reveal_strlit("1");
        reveal_strlit("2");
        reveal_strlit("3");
        reveal_strlit("4");
        reveal_strlit("5");
        reveal_strlit("6");
        reveal_strlit("7");
        reveal_strlit("8");
        reveal_strlit("9");
    }
    let r = match d {
        0 => "0",
        1 => "1",
        2 => "2",
        3 => "3",
        4 => "4",
        5 => "5",
        6 => "6",
        7 => "7",
        8 => "8",
        _ => "9",
    };
    assert(r@ =~= seq![seq!['0', '1', '2', '3', '4', '5', '6', '7', '8', '9'][d as int]]);
    r
}

/// The decimal digits of `n`.
pub fn decimal_text(n: usize) -> (r: String)
    ensures
        r@ == decimal(n as nat),
    decreases n,
{
    if n < 10 {
        String::from_str(digit_text(n))
    } else {
        let mut s = decimal_text(n / 10);
        s.append(digit_text(n % 10));
        assert(s@ =~= decimal(n as nat));
        s
    }
}

} // verus!
