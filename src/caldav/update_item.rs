//! Updating a calendar item: `PUT /<calendar_id>/<item_id>.ics` with
//! the item's iCalendar text.
use vstd::prelude::*;

use crate::caldav::config::CaldavConfig;
use crate::caldav::create_item::put_item;
use crate::caldav::ids::item_path_of;
use crate::caldav::request::{built_with, target_for, Method, Request};
use crate::caldav::send::{discard_body, discarded, is_2xx, Empty, Send, SendError, SendResult};
use crate::caldav::uri::UriParts;
use crate::item::CalendarItem;

verus! {

/// Replaces an item with a new version.
#[derive(Debug)]
pub struct UpdateCalendarItem(Send);

impl UpdateCalendarItem {
    pub closed spec fn is_done(&self) -> bool {
        self.0.is_done()
    }

    /// The exchange this workflow drives.
    pub closed spec fn exchange(&self) -> Send {
        self.0
    }

    /// The request this workflow sends.
    pub closed spec fn request(&self) -> Request {
        self.0.request()
    }

    pub closed spec fn method(&self) -> Method {
        self.0.request().method
    }

    pub closed spec fn target(&self) -> UriParts {
        self.0.request().uri.parts()
    }

    pub closed spec fn body(&self) -> Seq<u8> {
        self.0.body()
    }

    /// `PUT /<calendar_id>/<item_id>.ics`, `Content-Type:
    /// text/calendar; charset=utf-8`, the item's iCalendar text as body.
    /// `None` when the path does not compose with the configured URI.
    pub fn new(config: &CaldavConfig, item: CalendarItem) -> (r: Option<UpdateCalendarItem>)
        ensures
            r is Some <==> target_for(*config, item_path_of(item.calendar_id@, item.id@)) is Some,
            r is Some ==> {
                &&& built_with(*config, Method::Put, item_path_of(item.calendar_id@, item.id@), r->0.request(), Seq::empty().push(("Content-Type"@, "text/calendar; charset=utf-8"@)))
                &&& !r->0.is_done()
                &&& r->0.method() == Method::Put
                &&& r->0.target() == target_for(
                    *config,
                    item_path_of(item.calendar_id@, item.id@),
                )->0
            },
    {
        match put_item(config, &item) {
            Some(send) => Some(UpdateCalendarItem(send)),
            None => None,
        }
    }

    /// Advances the exchange; success is told by the HTTP status alone.
    pub fn resume(&mut self, arg: Option<Vec<u8>>) -> (r: SendResult<Empty>)
        requires
            !old(self).is_done(),
        ensures
            r is Io <==> !final(self).is_done(),
            exists|s: SendResult<String>| old(self).exchange().resume_outcome(s) && #[trigger] discarded(s, r),
            r matches SendResult::Done(ok) ==> is_2xx(ok.response.status),
            r matches SendResult::Failed(SendError::Response(s, _)) ==> !is_2xx(s),
    {
        let s = self.0.resume(arg);
        discard_body(s)
    }
}

} // verus!
