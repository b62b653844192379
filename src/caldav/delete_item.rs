//! Deleting a calendar item: `DELETE /<calendar_id>/<item_id>.ics`.
use vstd::prelude::*;

use crate::caldav::config::CaldavConfig;
use crate::caldav::ids::{item_path, item_path_of};
use crate::caldav::request::{built_with, target_for, Method, Request};
use crate::caldav::response::StatusResponse;
use crate::caldav::send::{is_2xx, utf8_lossy_of, Send, SendError, SendResult};
use crate::caldav::uri::UriParts;
use crate::text::{is_blank, str_is_blank};

verus! {

/// The body a server may answer an item deletion with.
#[derive(Clone, Debug)]
pub struct Response {
    pub response: StatusResponse,
}

/// Deletes one item of one calendar.
#[derive(Debug)]
pub struct DeleteCalendarItem(Send);

impl DeleteCalendarItem {
    pub closed spec fn is_done(&self) -> bool {
        self.0.is_done()
    }

    /// The exchange this workflow drives.
    pub closed spec fn exchange(&self) -> Send {
        self.0
    }

    /// The request this workflow sends.
    pub closed spec fn request(&self) -> Request {
        self.0.request()
    }

    pub closed spec fn method(&self) -> Method {
        self.0.request().method
    }

    pub closed spec fn target(&self) -> UriParts {
        self.0.request().uri.parts()
    }

    pub closed spec fn body(&self) -> Seq<u8> {
        self.0.body()
    }

    /// `DELETE /<calendar_id>/<item_id>.ics` with an empty body. `None`
    /// when the path does not compose with the configured URI.
    pub fn new(config: &CaldavConfig, calendar_id: &str, item_id: &str) -> (r: Option<
        DeleteCalendarItem,
    >)
        ensures
            r is Some <==> target_for(*config, item_path_of(calendar_id@, item_id@)) is Some,
            r is Some ==> {
                &&& built_with(*config, Method::Delete, item_path_of(calendar_id@, item_id@), r->0.request(), Seq::empty().push(("Content-Type"@, "text/xml; charset=utf-8"@)))
                &&& !r->0.is_done()
                &&& r->0.method() == Method::Delete
                &&& r->0.target() == target_for(*config, item_path_of(calendar_id@, item_id@))->0
                &&& r->0.body().len() == 0
            },
    {
        let path = item_path(calendar_id, item_id);
        let request = match Request::delete(config, path.as_str()) {
            Some(r) => r.content_type_xml(),
            None => return None,
        };
        Some(DeleteCalendarItem(Send::new(request, Vec::new())))
    }

    /// Advances the exchange; a `Done` carries the body (possibly
    /// empty), which `deleted` reads once decoded.
    pub fn resume(&mut self, arg: Option<Vec<u8>>) -> (r: SendResult<String>)
        requires
            !old(self).is_done(),
        ensures
            r is Io <==> !final(self).is_done(),
            old(self).exchange().resume_outcome(r),
            r matches SendResult::Done(ok) ==> is_2xx(ok.response.status) && ok.body@
                == utf8_lossy_of(ok.response.body@),
            r matches SendResult::Failed(SendError::Response(s, _)) ==> !is_2xx(s),
    {
        self.0.resume(arg)
    }

    /// Whether the body of the answer carries a report to decode:
    /// anything but whitespace.
    pub fn has_report(body: &str) -> (r: bool)
        ensures
            r == !is_blank(body@),
    {
        !str_is_blank(body)
    }

    /// Whether the deletion succeeded: the status the body reports, or,
    /// without a body, a `204 No Content` answer.
    pub fn deleted(status: u16, body: Option<&Response>) -> (r: bool)
        ensures
            match body {
                Some(b) => r == b.response.status.spec_is_success(),
                None => r == (status == 204),
            },
    {
        match body {
            Some(b) => b.response.status.is_success(),
            None => status == 204,
        }
    }
}

} // verus!
