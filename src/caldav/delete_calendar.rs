//! Deleting a calendar: `DELETE /<id>`.
use vstd::prelude::*;

use crate::caldav::config::CaldavConfig;
use crate::caldav::request::{built_with, target_for, Method, Request};
use crate::caldav::response::StatusResponse;
use crate::caldav::send::{is_2xx, utf8_lossy_of, Send, SendError, SendResult};
use crate::caldav::uri::UriParts;

verus! {

/// The body a server may answer a collection deletion with.
#[derive(Clone, Debug)]
pub struct Response {
    pub response: StatusResponse,
}

/// Deletes the calendar collection `id`.
#[derive(Debug)]
pub struct DeleteCalendar(Send);

impl DeleteCalendar {
    pub closed spec fn is_done(&self) -> bool {
        self.0.is_done()
    }

    /// The exchange this workflow drives.
    pub closed spec fn exchange(&self) -> Send {
        self.0
    }

    /// The request this workflow sends.
    pub closed spec fn request(&self) -> Request {
        self.0.request()
    }

    pub closed spec fn method(&self) -> Method {
        self.0.request().method
    }

    pub closed spec fn target(&self) -> UriParts {
        self.0.request().uri.parts()
    }

    pub closed spec fn body(&self) -> Seq<u8> {
        self.0.body()
    }

    /// `DELETE /<id>` with an empty body. `None` when the id does not
    /// compose with the configured URI.
    pub fn new(config: &CaldavConfig, id: &str) -> (r: Option<DeleteCalendar>)
        ensures
            r is Some <==> target_for(*config, id@) is Some,
            r is Some ==> {
                &&& built_with(*config, Method::Delete, id@, r->0.request(), Seq::empty().push(("Content-Type"@, "text/xml; charset=utf-8"@)))
                &&& !r->0.is_done()
                &&& r->0.method() == Method::Delete
                &&& r->0.target() == target_for(*config, id@)->0
                &&& r->0.body().len() == 0
            },
    {
        let request = match Request::delete(config, id) {
            Some(r) => r.content_type_xml(),
            None => return None,
        };
        Some(DeleteCalendar(Send::new(request, Vec::new())))
    }

    /// Advances the exchange; a `Done` carries the XML body, which
    /// `deleted` reads once decoded.
    pub fn resume(&mut self, arg: Option<Vec<u8>>) -> (r: SendResult<String>)
        requires
            !old(self).is_done(),
        ensures
            r is Io <==> !final(self).is_done(),
            old(self).exchange().resume_outcome(r),
            r matches SendResult::Done(ok) ==> is_2xx(ok.response.status) && ok.body@
                == utf8_lossy_of(ok.response.body@),
            r matches SendResult::Failed(SendError::Response(s, _)) ==> !is_2xx(s),
    {
        self.0.resume(arg)
    }

    /// Whether the server reports the deletion as a success.
    pub fn deleted(body: &Response) -> (r: bool)
        ensures
            r == body.response.status.spec_is_success(),
    {
        body.response.status.is_success()
    }
}

} // verus!
