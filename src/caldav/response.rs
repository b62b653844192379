//! The WebDAV response bodies the workflows decode: `multistatus`,
//! `mkcol-response`, `propstat`, `href` and `status`.
use vstd::prelude::*;

use crate::caldav::uri::{uri_parts_of, Uri};
use crate::text::{contains_seq, occurs_at};

verus! {

#[derive(Clone, Debug)]
pub struct Multistatus<T> {
    pub responses: Option<Vec<PropstatResponse<T>>>,
}

#[derive(Clone, Debug)]
pub struct MkcolResponse<T> {
    pub propstats: Option<Vec<Propstat<T>>>,
}

#[derive(Clone, Debug)]
pub struct PropstatResponse<T> {
    pub href: Value,
    pub status: Option<Status>,
    pub propstats: Option<Vec<Propstat<T>>>,
}

#[derive(Clone, Debug)]
pub struct StatusResponse {
    pub status: Status,
}

#[derive(Clone, Debug)]
pub struct Propstat<T> {
    pub prop: T,
    pub status: Status,
}

#[derive(Clone, Debug)]
pub struct HrefProp {
    pub href: Value,
}

impl HrefProp {
    /// The href parsed as a URI; `None` when it does not parse.
    pub fn uri(&self) -> (r: Option<Uri>)
        ensures
            match r {
                Some(u) => uri_parts_of(self.href.value@) == Some(u.parts()),
                None => uri_parts_of(self.href.value@) is None,
            },
    {
        Uri::parse(self.href.value.as_str())
    }
}

/// The text content of an element.
#[derive(Clone, Debug)]
pub struct Value {
    pub value: String,
}

/// A raw `HTTP/1.1 NNN Reason` status line.
#[derive(Clone, Debug)]
pub struct Status(pub Value);

impl<T> PropstatResponse<T> {
    /// The response as a whole is not reported as failed.
    pub open spec fn spec_is_ok(&self) -> bool {
        match self.status {
            Some(s) => s.spec_is_success(),
            None => true,
        }
    }

    /// Whether the response as a whole is not reported as failed.
    pub fn is_ok(&self) -> (r: bool)
        ensures
            r == self.spec_is_ok(),
    {
        match &self.status {
            Some(s) => s.is_success(),
            None => true,
        }
    }
}

/// The prop of the first successful propstat of `ps`.
pub open spec fn first_success_prop<T>(ps: Seq<Propstat<T>>) -> Option<T>
    decreases ps.len(),
{
    if ps.len() == 0 {
        None
    } else if ps[0].status.spec_is_success() {
        Some(ps[0].prop)
    } else {
        first_success_prop(ps.subrange(1, ps.len() as int))
    }
}

/// The prop of the first successful propstat of a response that is
/// not reported as failed, going through the responses in order.
pub open spec fn first_success_in<T>(rs: Seq<PropstatResponse<T>>) -> Option<T>
    decreases rs.len(),
{
    if rs.len() == 0 {
        None
    } else {
        let r = rs[0];
        let here = if r.spec_is_ok() && r.propstats is Some {
            first_success_prop(r.propstats->0@)
        } else {
            None
        };
        match here {
            Some(p) => Some(p),
            None => first_success_in(rs.subrange(1, rs.len() as int)),
        }
    }
}

/// The first successful propstat of `ps`.
pub fn find_success_prop<T>(ps: &Vec<Propstat<T>>) -> (r: Option<&T>)
    ensures
        match r {
            Some(p) => first_success_prop(ps@) == Some(*p),
            None => first_success_prop(ps@) is None,
        },
{
    let n = ps.len();
    let mut i: usize = 0;
    assert(ps@.subrange(0, n as int) =~= ps@);
    while i < n
        invariant
            n == ps@.len(),
            i <= n,
            first_success_prop(ps@) == first_success_prop(ps@.subrange(i as int, n as int)),
        decreases n - i,
    {
        if ps[i].status.is_success() {
            return Some(&ps[i].prop);
        }
        assert(ps@.subrange(i as int, n as int).subrange(1, n - i) =~= ps@.subrange(
            i + 1,
            n as int,
        ));
        i = i + 1;
    }
    None
}

impl<T> Multistatus<T> {
    /// The prop of the first successful propstat, as `first_success_in`.
    pub fn first_success(&self) -> (r: Option<&T>)
        ensures
            match r {
                Some(p) => self.responses is Some && first_success_in(self.responses->0@) == Some(
                    *p,
                ),
                None => self.responses is None || first_success_in(self.responses->0@) is None,
            },
    {
        let rs = match &self.responses {
            Some(rs) => rs,
            None => return None,
        };
        let n = rs.len();
        let mut i: usize = 0;
        assert(rs@.subrange(0, n as int) =~= rs@);
        while i < n
            invariant
                n == rs@.len(),
                i <= n,
                self.responses == Some(*rs),
                first_success_in(rs@) == first_success_in(rs@.subrange(i as int, n as int)),
            decreases n - i,
        {
            let r = &rs[i];
            assert(rs@.subrange(i as int, n as int)[0] == rs@[i as int]);
            if r.is_ok() {
                match &r.propstats {
                    Some(ps) => match find_success_prop(ps) {
                        Some(p) => {
                            return Some(p);
                        },
                        None => {},
                    },
                    None => {},
                }
            }
            assert(rs@.subrange(i as int, n as int).subrange(1, n - i) =~= rs@.subrange(
                i + 1,
                n as int,
            ));
            i = i + 1;
        }
        None
    }
}

/// The bytes of `" 2"`.
pub open spec fn success_marker() -> Seq<u8> {
    seq![32u8, 50u8]
}

impl Status {
    /// The status line counts as a success: its UTF-8 bytes hold `" 2"`.
    pub open spec fn spec_is_success(&self) -> bool {
        contains_seq(vstd::utf8::encode_utf8(self.0.value@), success_marker())
    }

    /// Whether the status line reports a 2xx status (holds `" 2"`).
    pub fn is_success(&self) -> (r: bool)
        ensures
            r == self.spec_is_success(),
    {
        let needle: [u8; 2] = [32u8, 50u8];
        assert(needle@ =~= success_marker());
        let found = find_bytes(self.0.value.as_str().as_bytes(), needle.as_slice());
        match found {
            Some(i) => {
                assert(occurs_at(vstd::utf8::encode_utf8(self.0.value@), success_marker(), i as int));
                true
            },
            None => false,
        }
    }
}

/// Relies on `memchr::memmem::find`: the index of the first occurrence
/// of `needle` in `haystack`, `None` when there is none.
#[verifier::external_body]
fn find_bytes(haystack: &[u8], needle: &[u8]) -> (r: Option<usize>)
    ensures
        match r {
            Some(i) => occurs_at(haystack@, needle@, i as int) && forall|j: int|
                0 <= j < i ==> !occurs_at(haystack@, needle@, j),
            None => !contains_seq(haystack@, needle@),
        },
{
    memchr::memmem::find(haystack, needle)
}

} // verus!
