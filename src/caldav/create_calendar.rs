//! Creating a calendar: `MKCOL /<id>` with the calendar's metadata.
use vstd::prelude::*;

use crate::caldav::config::CaldavConfig;
use crate::caldav::request::{built_with, target_for, Method, Request};
use crate::caldav::send::{discard_body, discarded, is_2xx, Empty, Send, SendError, SendResult};
use crate::caldav::uri::{opt_view, UriParts};
use crate::calendar::Calendar;

verus! {

/// `open value close`, or nothing when there is no value.
pub open spec fn element(open: Seq<char>, value: Option<Seq<char>>, close: Seq<char>) -> Seq<char> {
    match value {
        Some(v) => open + v + close,
        None => Seq::empty(),
    }
}

/// The metadata properties of a calendar, each only when present:
/// display name, color, description.
pub open spec fn metadata_xml(c: Calendar) -> Seq<char> {
    element("<displayname>"@, opt_view(c.display_name), "</displayname>"@) + element(
        "<I:calendar-color>"@,
        opt_view(c.color),
        "</I:calendar-color>"@,
    ) + element(
        "<C:calendar-description>"@,
        opt_view(c.description),
        "</C:calendar-description>"@,
    )
}

pub open spec fn mkcol_head() -> Seq<char> {
    "<?xml version=\"1.0\" encoding=\"utf-8\"?><mkcol xmlns=\"DAV:\" xmlns:C=\"urn:ietf:params:xml:ns:caldav\" xmlns:I=\"http://apple.com/ns/ical/\"><set><prop><resourcetype><collection/><C:calendar/></resourcetype>"@
}

pub open spec fn mkcol_tail() -> Seq<char> {
    "</prop></set></mkcol>"@
}

fn push_element(out: &mut String, open: &str, value: &Option<String>, close: &str)
    ensures
        final(out)@ == old(out)@ + element(open@, opt_view(*value), close@),
{
    match value {
        Some(v) => {
            out.append(open);
            out.append(v.as_str());
            out.append(close);
        },
        None => {},
    }
}

/// Appends the metadata properties of `calendar` (see `metadata_xml`).
pub fn push_metadata(out: &mut String, calendar: &Calendar)
    ensures
        final(out)@ == old(out)@ + metadata_xml(*calendar),
{
    push_element(out, "<displayname>", &calendar.display_name, "</displayname>");
    push_element(out, "<I:calendar-color>", &calendar.color, "</I:calendar-color>");
    push_element(
        out,
        "<C:calendar-description>",
        &calendar.description,
        "</C:calendar-description>",
    );
}

/// The `MKCOL` body creating a calendar collection with `calendar`'s metadata.
pub fn mkcol_body(calendar: &Calendar) -> (r: String)
    ensures
        r@ == mkcol_head() + metadata_xml(*calendar) + mkcol_tail(),
{
    let mut out = String::from_str(
        "<?xml version=\"1.0\" encoding=\"utf-8\"?><mkcol xmlns=\"DAV:\" xmlns:C=\"urn:ietf:params:xml:ns:caldav\" xmlns:I=\"http://apple.com/ns/ical/\"><set><prop><resourcetype><collection/><C:calendar/></resourcetype>",
    );
    push_metadata(&mut out, calendar);
    out.append("</prop></set></mkcol>");
    out
}

/// Creates a calendar collection named by the calendar's id.
#[derive(Debug)]
pub struct CreateCalendar(Send);

impl CreateCalendar {
    pub closed spec fn is_done(&self) -> bool {
        self.0.is_done()
    }

    /// The exchange this workflow drives.
    pub closed spec fn exchange(&self) -> Send {
        self.0
    }

    /// The request this workflow sends.
    pub closed spec fn request(&self) -> Request {
        self.0.request()
    }

    pub closed spec fn method(&self) -> Method {
        self.0.request().method
    }

    pub closed spec fn target(&self) -> UriParts {
        self.0.request().uri.parts()
    }

    pub closed spec fn body(&self) -> Seq<u8> {
        self.0.body()
    }

    /// `MKCOL /<id>` with an XML body holding the metadata that is
    /// present. `None` when the id does not compose with the configured URI.
    pub fn new(config: &CaldavConfig, calendar: Calendar) -> (r: Option<CreateCalendar>)
        ensures
            r is Some <==> target_for(*config, calendar.id@) is Some,
            r is Some ==> {
                &&& built_with(*config, Method::Mkcol, calendar.id@, r->0.request(), Seq::empty().push(("Content-Type"@, "text/xml; charset=utf-8"@)))
                &&& !r->0.is_done()
                &&& r->0.method() == Method::Mkcol
                &&& r->0.target() == target_for(*config, calendar.id@)->0
                &&& r->0.body() == vstd::utf8::encode_utf8(
                    mkcol_head() + metadata_xml(calendar) + mkcol_tail(),
                )
            },
    {
        let request = match Request::mkcol(config, calendar.id.as_str()) {
            Some(r) => r.content_type_xml(),
            None => return None,
        };
        let body = mkcol_body(&calendar);
        Some(CreateCalendar(Send::new(request, body.as_str().as_bytes_vec())))
    }

    /// Advances the exchange; success is told by the HTTP status alone.
    pub fn resume(&mut self, arg: Option<Vec<u8>>) -> (r: SendResult<Empty>)
        requires
            !old(self).is_done(),
        ensures
            r is Io <==> !final(self).is_done(),
            exists|s: SendResult<String>| old(self).exchange().resume_outcome(s) && #[trigger] discarded(s, r),
            r matches SendResult::Done(ok) ==> is_2xx(ok.response.status),
            r matches SendResult::Failed(SendError::Response(s, _)) ==> !is_2xx(s),
    {
        let s = self.0.resume(arg);
        discard_body(s)
    }
}

} // verus!
