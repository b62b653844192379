//! Discovery of the calendar home set: the URI under which the
//! principal's calendars live.
use vstd::prelude::*;

use crate::caldav::config::CaldavConfig;
use crate::caldav::follow_redirects::{
    follow_outcome, FollowRedirects, FollowRedirectsError, FollowRedirectsResult, MAX_REDIRECTS,
};
use crate::caldav::send::{is_2xx, utf8_lossy_of, Response};
use crate::caldav::request::{built_with, target_for, Method, Request};
use crate::caldav::response::{first_success_in, HrefProp, Multistatus};
use crate::caldav::uri::{uri_parts_of, Uri};

verus! {

/// The `PROPFIND` body asking for the `calendar-home-set` property.
pub const BODY: &'static str = "<?xml version=\"1.0\" encoding=\"utf-8\"?><D:propfind xmlns:D=\"DAV:\" xmlns:C=\"urn:ietf:params:xml:ns:caldav\"><D:prop><C:calendar-home-set/></D:prop></D:propfind>";

#[derive(Clone, Debug)]
pub struct Prop {
    pub calendar_home_set: HrefProp,
}

/// Asks the server for the principal's calendar home set, following redirects.
#[derive(Debug)]
pub struct CalendarHomeSet(FollowRedirects);

impl CalendarHomeSet {
    pub closed spec fn is_done(&self) -> bool {
        self.0.is_done()
    }

    /// The exchange this workflow drives.
    pub closed spec fn exchange(&self) -> FollowRedirects {
        self.0
    }

    /// The request this workflow sends.
    pub closed spec fn request(&self) -> Request {
        self.0.request()
    }

    pub closed spec fn redirects(&self) -> nat {
        self.0.redirects()
    }

    pub closed spec fn method(&self) -> Method {
        self.0.method()
    }

    pub closed spec fn target(&self) -> crate::caldav::uri::UriParts {
        self.0.target()
    }

    pub closed spec fn body(&self) -> Seq<u8> {
        self.0.body()
    }

    /// `PROPFIND /` with an XML body asking for the property. `None` when
    /// the request path does not compose with the configured URI.
    pub fn new(config: &CaldavConfig) -> (r: Option<CalendarHomeSet>)
        ensures
            r is Some <==> target_for(*config, "/"@) is Some,
            r is Some ==> {
                &&& built_with(*config, Method::Propfind, "/"@, r->0.request(), Seq::empty().push(("Content-Type"@, "text/xml; charset=utf-8"@)))
                &&& !r->0.is_done()
                &&& r->0.redirects() == 0
                &&& r->0.method() == Method::Propfind
                &&& r->0.target() == target_for(*config, "/"@)->0
                &&& r->0.body() == vstd::utf8::encode_utf8(BODY@)
            },
    {
        let request = match Request::propfind(config, "/") {
            Some(r) => r.content_type_xml(),
            None => return None,
        };
        Some(CalendarHomeSet(FollowRedirects::new(request, BODY.as_bytes_vec())))
    }

    /// Advances the exchange; a `Done` carries the XML body, which
    /// `home_set` reads once decoded.
    pub fn resume(&mut self, arg: Option<Vec<u8>>) -> (r: FollowRedirectsResult<String>)
        requires
            !old(self).is_done(),
            old(self).redirects() <= MAX_REDIRECTS,
        ensures
            final(self).redirects() <= MAX_REDIRECTS,
            (r is Io || r is Reset) <==> !final(self).is_done(),
            r is Reset ==> r->Reset_0.parts() == final(self).target() && final(self).redirects()
                > old(self).redirects(),
            r matches FollowRedirectsResult::Done(ok) ==> is_2xx(ok.response.status) && ok.body@
                == utf8_lossy_of(ok.response.body@) && ok.request.uri.parts() == final(self).target(),
            r matches FollowRedirectsResult::Failed(FollowRedirectsError::Response(s, _)) ==> !is_2xx(s),
            (r is Done || r matches FollowRedirectsResult::Failed(FollowRedirectsError::Response(_, _)))
                ==> exists|p: (Response, bool)| #[trigger] follow_outcome(final(self).target(), p.0, p.1, r),
            final(self).redirects() == old(self).redirects() ==> final(self).target() == old(self).target(),
            final(self).method() == old(self).method(),
            final(self).body() == old(self).body(),
    {
        let r = self.0.resume(arg);
        proof {
            if r is Done || r matches FollowRedirectsResult::Failed(
                FollowRedirectsError::Response(_, _),
            ) {
                let p = choose|p: (Response, bool)| #[trigger]
                    follow_outcome(self.0.target(), p.0, p.1, r);
                assert(follow_outcome(self.target(), p.0, p.1, r));
            }
        }
        r
    }

    /// The href of the first successful propstat (see
    /// `first_success_in`), parsed as a URI; `None` when there is no
    /// such propstat or its href does not parse.
    pub fn home_set(body: &Multistatus<Prop>) -> (r: Option<Uri>)
        ensures
            match r {
                Some(u) => body.responses is Some && first_success_in(body.responses->0@) is Some
                    && uri_parts_of(
                    first_success_in(body.responses->0@)->0.calendar_home_set.href.value@,
                ) == Some(u.parts()),
                None => body.responses is None || first_success_in(body.responses->0@) is None
                    || uri_parts_of(
                    first_success_in(body.responses->0@)->0.calendar_home_set.href.value@,
                ) is None,
            },
    {
        match body.first_success() {
            Some(prop) => prop.calendar_home_set.uri(),
            None => None,
        }
    }
}

} // verus!
