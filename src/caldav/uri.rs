//! URIs as plain parts, parsed by the `http` crate, and the path
//! composition rules the request builder applies to them.
use vstd::prelude::*;

use crate::text::{trim_end_char, trim_end_matches_char, trim_start_char, trim_start_matches_char};

verus! {

/// The characters of an optional string.
pub open spec fn opt_view(o: Option<String>) -> Option<Seq<char>> {
    match o {
        Some(s) => Some(s@),
        None => None,
    }
}

/// What the `http` crate reads out of a URI: scheme, authority, host,
/// port, path and query, in that order.
pub type UriParts = (
    Option<Seq<char>>,
    Option<Seq<char>>,
    Option<Seq<char>>,
    Option<Seq<char>>,
    Seq<char>,
    Option<Seq<char>>,
);

/// The parts of `s` as a `http::Uri`, or `None` when it does not parse.
pub uninterp spec fn uri_parts_of(s: Seq<char>) -> Option<UriParts>;

/// Path and query of `s` as a `http::uri::PathAndQuery`, or `None`
/// when it does not parse.
pub uninterp spec fn path_and_query_of(s: Seq<char>) -> Option<(Seq<char>, Option<Seq<char>>)>;

/// A URI, held as the parts that the `http` crate reads out of it.
#[derive(Clone, Debug, PartialEq, Eq, Hash)]
pub struct Uri {
    pub scheme: Option<String>,
    pub authority: Option<String>,
    pub host: Option<String>,
    pub port: Option<String>,
    pub path: String,
    pub query: Option<String>,
}

impl Uri {
    pub open spec fn parts(&self) -> UriParts {
        (
            opt_view(self.scheme),
            opt_view(self.authority),
            opt_view(self.host),
            opt_view(self.port),
            self.path@,
            opt_view(self.query),
        )
    }

    /// The URI has a path-and-query component in the `http` crate's sense.
    pub open spec fn has_path_and_query(&self) -> bool {
        self.scheme is Some || self.path@.len() > 0 || self.query is Some
    }

    /// A copy of the URI.
    pub fn duplicate(&self) -> (r: Uri)
        ensures
            r.parts() == self.parts(),
    {
        Uri {
            scheme: copy_opt(&self.scheme),
            authority: copy_opt(&self.authority),
            host: copy_opt(&self.host),
            port: copy_opt(&self.port),
            path: self.path.clone(),
            query: copy_opt(&self.query),
        }
    }

    /// Parses `s` as a URI.
    pub fn parse(s: &str) -> (r: Option<Uri>)
        ensures
            match r {
                Some(u) => uri_parts_of(s@) == Some(u.parts()),
                None => uri_parts_of(s@) is None,
            },
    {
        parse_http_uri(s)
    }

    /// The URI written out: `scheme://authority`, then path, then `?query`.
    pub fn as_string(&self) -> (r: String)
        ensures
            r@ == uri_text(self.parts()),
    {
        let mut out = String::new();
        proof {
            reveal_strlit("://");
            reveal_strlit("?");
        }
        match &self.scheme {
            Some(s) => {
                out.append(s.as_str());
                out.append("://");
            },
            None => {},
        }
        match &self.authority {
            Some(a) => out.append(a.as_str()),
            None => {},
        }
        out.append(self.path.as_str());
        match &self.query {
            Some(q) => {
                out.append("?");
                out.append(q.as_str());
            },
            None => {},
        }
        out
    }
}

/// A copy of an optional string.
pub fn copy_opt(o: &Option<String>) -> (r: Option<String>)
    ensures
        opt_view(r) == opt_view(*o),
{
    match o {
        Some(s) => Some(s.clone()),
        None => None,
    }
}

/// `o`'s characters, or nothing.
pub open spec fn or_empty(o: Option<Seq<char>>) -> Seq<char> {
    match o {
        Some(s) => s,
        None => Seq::empty(),
    }
}

/// A URI written out from its parts, as `http::Uri` displays itself.
pub open spec fn uri_text(p: UriParts) -> Seq<char> {
    (match p.0 {
        Some(s) => s + "://"@,
        None => Seq::empty(),
    }) + or_empty(p.1) + p.4 + (match p.5 {
        Some(q) => "?"@ + q,
        None => Seq::empty(),
    })
}

/// The path-and-query text that appending `path` to `u` parses:
/// base path without trailing `/`, one `/`, `path` without leading `/`,
/// then the base query.
pub open spec fn joined_path_and_query(u: UriParts, has_pq: bool, path: Seq<char>) -> Seq<char> {
    if !has_pq {
        path
    } else {
        trim_end_char(u.4, '/') + "/"@ + trim_start_char(path, '/') + (match u.5 {
            Some(q) => "?"@ + q,
            None => Seq::empty(),
        })
    }
}

/// `u` with its path and query replaced by the parse of `pq`, or
/// `None` when `pq` does not parse.
pub open spec fn with_path_and_query(u: UriParts, pq: Seq<char>) -> Option<UriParts> {
    match path_and_query_of(pq) {
        Some(pq) => Some((u.0, u.1, u.2, u.3, pq.0, pq.1)),
        None => None,
    }
}

/// Appends `path` to the path of `uri`, keeping its query: empty
/// `path` leaves `uri` as it is. `None` when the joined path and query
/// do not parse.
pub fn push_uri_path(uri: Uri, path: &str) -> (r: Option<Uri>)
    ensures
        path@.len() == 0 ==> r == Some(uri),
        path@.len() > 0 ==> match r {
            Some(u) => with_path_and_query(
                uri.parts(),
                joined_path_and_query(uri.parts(), uri.has_path_and_query(), path@),
            ) == Some(u.parts()),
            None => with_path_and_query(
                uri.parts(),
                joined_path_and_query(uri.parts(), uri.has_path_and_query(), path@),
            ) is None,
        },
{
    if path.unicode_len() == 0 {
        return Some(uri);
    }
    let has_pq = uri.scheme.is_some() || uri.path.unicode_len() > 0 || uri.query.is_some();
    let mut joined = String::new();
    if !has_pq {
        joined.append(path);
    } else {
        proof {
            reveal_strlit("/");
            reveal_strlit("?");
        }
        joined.append(trim_end_matches_char(uri.path.as_str(), '/'));
        joined.append("/");
        joined.append(trim_start_matches_char(path, '/'));
        match &uri.query {
            Some(q) => {
                joined.append("?");
                joined.append(q.as_str());
            },
            None => {},
        }
    }
    assert(joined@ =~= joined_path_and_query(uri.parts(), uri.has_path_and_query(), path@));
    replace_path_and_query(uri, joined.as_str())
}

/// Replaces the path and query of `uri` by the parse of `path`.
/// `None` when `path` does not parse.
pub fn set_uri_path(uri: Uri, path: &str) -> (r: Option<Uri>)
    ensures
        match r {
            Some(u) => with_path_and_query(uri.parts(), path@) == Some(u.parts()),
            None => with_path_and_query(uri.parts(), path@) is None,
        },
{
    replace_path_and_query(uri, path)
}

/// The endpoint to use after discovery answered `found` while talking
/// to `current`: `found` itself when it names an authority, else
/// `current` with its path set to the path of `found`.
pub fn rebase(current: Uri, found: Uri) -> (r: Option<Uri>)
    ensures
        found.authority is Some ==> r == Some(found),
        found.authority is None ==> match r {
            Some(u) => with_path_and_query(current.parts(), found.path@) == Some(u.parts()),
            None => with_path_and_query(current.parts(), found.path@) is None,
        },
{
    if found.authority.is_some() {
        Some(found)
    } else {
        set_uri_path(current, found.path.as_str())
    }
}

fn replace_path_and_query(uri: Uri, pq: &str) -> (r: Option<Uri>)
    ensures
        match r {
            Some(u) => with_path_and_query(uri.parts(), pq@) == Some(u.parts()),
            None => with_path_and_query(uri.parts(), pq@) is None,
        },
{
    match parse_path_and_query(pq) {
        Some((path, query)) => Some(Uri { path, query, ..uri }),
        None => None,
    }
}

/// Relies on `http::Uri`'s `FromStr`, and on its accessors `scheme_str`,
/// `authority`, `host`, `port`, `path` and `query`, for the parts of `s`.
#[verifier::external_body]
fn parse_http_uri(s: &str) -> (r: Option<Uri>)
    ensures
        match r {
            Some(u) => uri_parts_of(s@) == Some(u.parts()),
            None => uri_parts_of(s@) is None,
        },
{
    let u: http::Uri = s.parse().ok()?;
    Some(Uri {
        scheme: u.scheme_str().map(String::from),
        authority: u.authority().map(|a| a.as_str().to_string()),
        host: u.host().map(String::from),
        port: u.port().map(|p| p.as_str().to_string()),
        path: u.path().to_string(),
        query: u.query().map(String::from),
    })
}

/// Relies on `http::uri::PathAndQuery`'s `FromStr`, with its `path` and
/// `query` accessors, for the path and query of `s`.
#[verifier::external_body]
fn parse_path_and_query(s: &str) -> (r: Option<(String, Option<String>)>)
    ensures
        match r {
            Some(pq) => path_and_query_of(s@) == Some((pq.0@, opt_view(pq.1))),
            None => path_and_query_of(s@) is None,
        },
{
    let pq: http::uri::PathAndQuery = s.parse().ok()?;
    Some((pq.path().to_string(), pq.query().map(String::from)))
}

} // verus!
