//! Updating a calendar's metadata: `PROPPATCH /<id>`.
use vstd::prelude::*;

use crate::caldav::config::CaldavConfig;
use crate::caldav::create_calendar::{metadata_xml, push_metadata};
use crate::caldav::request::{built_with, target_for, Method, Request};
use crate::caldav::send::{is_2xx, utf8_lossy_of, Send, SendError, SendResult};
use crate::caldav::uri::UriParts;
use crate::calendar::Calendar;

verus! {

/// What the server reports per property.
#[derive(Clone, Debug)]
pub struct Prop {
    pub displayname: Option<String>,
    pub calendar_color: Option<String>,
    pub calendar_description: Option<String>,
}

pub open spec fn proppatch_head() -> Seq<char> {
    "<?xml version=\"1.0\" encoding=\"utf-8\"?><propertyupdate xmlns=\"DAV:\" xmlns:C=\"urn:ietf:params:xml:ns:caldav\" xmlns:I=\"http://apple.com/ns/ical/\"><set><prop>"@
}

pub open spec fn proppatch_tail() -> Seq<char> {
    "</prop></set></propertyupdate>"@
}

/// The `PROPPATCH` body setting `calendar`'s metadata.
pub fn proppatch_body(calendar: &Calendar) -> (r: String)
    ensures
        r@ == proppatch_head() + metadata_xml(*calendar) + proppatch_tail(),
{
    let mut out = String::from_str(
        "<?xml version=\"1.0\" encoding=\"utf-8\"?><propertyupdate xmlns=\"DAV:\" xmlns:C=\"urn:ietf:params:xml:ns:caldav\" xmlns:I=\"http://apple.com/ns/ical/\"><set><prop>",
    );
    push_metadata(&mut out, calendar);
    out.append("</prop></set></propertyupdate>");
    out
}

/// Sets the metadata of the calendar named by the calendar's id.
#[derive(Debug)]
pub struct UpdateCalendar(Send);

impl UpdateCalendar {
    pub closed spec fn is_done(&self) -> bool {
        self.0.is_done()
    }

    /// The exchange this workflow drives.
    pub closed spec fn exchange(&self) -> Send {
        self.0
    }

    /// The request this workflow sends.
    pub closed spec fn request(&self) -> Request {
        self.0.request()
    }

    pub closed spec fn method(&self) -> Method {
        self.0.request().method
    }

    pub closed spec fn target(&self) -> UriParts {
        self.0.request().uri.parts()
    }

    pub closed spec fn body(&self) -> Seq<u8> {
        self.0.body()
    }

    /// `PROPPATCH /<id>` with an XML body holding the metadata that is
    /// present. `None` when the id does not compose with the configured URI.
    pub fn new(config: &CaldavConfig, calendar: Calendar) -> (r: Option<UpdateCalendar>)
        ensures
            r is Some <==> target_for(*config, calendar.id@) is Some,
            r is Some ==> {
                &&& built_with(*config, Method::Proppatch, calendar.id@, r->0.request(), Seq::empty().push(("Content-Type"@, "text/xml; charset=utf-8"@)))
                &&& !r->0.is_done()
                &&& r->0.method() == Method::Proppatch
                &&& r->0.target() == target_for(*config, calendar.id@)->0
                &&& r->0.body() == vstd::utf8::encode_utf8(
                    proppatch_head() + metadata_xml(calendar) + proppatch_tail(),
                )
            },
    {
        let request = match Request::proppatch(config, calendar.id.as_str()) {
            Some(r) => r.content_type_xml(),
            None => return None,
        };
        let body = proppatch_body(&calendar);
        Some(UpdateCalendar(Send::new(request, body.as_str().as_bytes_vec())))
    }

    /// Advances the exchange; a `Done` carries the per-property report
    /// (an `MkcolResponse` of `Prop`), which is informative only.
    pub fn resume(&mut self, arg: Option<Vec<u8>>) -> (r: SendResult<String>)
        requires
            !old(self).is_done(),
        ensures
            r is Io <==> !final(self).is_done(),
            old(self).exchange().resume_outcome(r),
            r matches SendResult::Done(ok) ==> is_2xx(ok.response.status) && ok.body@
                == utf8_lossy_of(ok.response.body@),
            r matches SendResult::Failed(SendError::Response(s, _)) ==> !is_2xx(s),
    {
        self.0.resume(arg)
    }
}

} // verus!
