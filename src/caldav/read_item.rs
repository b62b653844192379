//! Reading a calendar item: `GET /<calendar_id>/<item_id>.ics`, the body
//! parsed as iCalendar.
use vstd::prelude::*;

use crate::caldav::config::CaldavConfig;
use crate::caldav::ids::{item_path, item_path_of};
use crate::caldav::request::{built_with, target_for, Method, Request};
use crate::caldav::send::{Send, SendError, SendOk, SendResult};
use crate::caldav::uri::UriParts;
use crate::item::{ical_parses, CalendarItem};

verus! {

/// What the result of the exchange amounts to: a finished one whose
/// body parses as iCalendar gives the item with the ids asked for;
/// one whose body does not fails with `ParseIcalResponseBody`; failures
/// and I/O are passed on.
pub open spec fn read_outcome(
    calendar_id: Seq<char>,
    item_id: Seq<char>,
    s: SendResult<String>,
    r: SendResult<CalendarItem>,
) -> bool {
    match s {
        SendResult::Done(ok) => if ical_parses(ok.body@) {
            (r matches SendResult::Done(o) && o.request == ok.request && o.response == ok.response
                && o.keep_alive == ok.keep_alive && o.body.id@ == item_id && o.body.calendar_id@
                == calendar_id)
        } else {
            r matches SendResult::Failed(SendError::ParseIcalResponseBody(_))
        },
        SendResult::Failed(e) => (r matches SendResult::Failed(x) && x == e),
        SendResult::Io(io) => (r matches SendResult::Io(i) && i == io),
    }
}

/// The result for the item `item_id` of `calendar_id` once the exchange
/// gave `s` (see `read_outcome`).
pub fn read_result(calendar_id: &String, item_id: &String, s: SendResult<String>) -> (r:
    SendResult<CalendarItem>)
    ensures
        read_outcome(calendar_id@, item_id@, s, r),
{
    let ok = match s {
        SendResult::Done(ok) => ok,
        SendResult::Failed(err) => return SendResult::Failed(err),
        SendResult::Io(io) => return SendResult::Io(io),
    };
    let ical = match CalendarItem::parse(ok.body.as_str()) {
        Ok(ical) => ical,
        Err(err) => return SendResult::Failed(SendError::ParseIcalResponseBody(err)),
    };
    let item = CalendarItem { id: item_id.clone(), calendar_id: calendar_id.clone(), ical };
    SendResult::Done(
        SendOk { request: ok.request, response: ok.response, keep_alive: ok.keep_alive, body: item },
    )
}

/// Reads one item of one calendar.
#[derive(Debug)]
pub struct ReadCalendarItem {
    calendar_id: String,
    id: String,
    send: Send,
}

impl ReadCalendarItem {
    pub closed spec fn is_done(&self) -> bool {
        self.send.is_done()
    }

    /// The exchange this workflow drives.
    pub closed spec fn exchange(&self) -> Send {
        self.send
    }

    /// The request this workflow sends.
    pub closed spec fn request(&self) -> Request {
        self.send.request()
    }

    pub closed spec fn method(&self) -> Method {
        self.send.request().method
    }

    pub closed spec fn target(&self) -> UriParts {
        self.send.request().uri.parts()
    }

    pub closed spec fn body(&self) -> Seq<u8> {
        self.send.body()
    }

    pub closed spec fn calendar_id(&self) -> Seq<char> {
        self.calendar_id@
    }

    pub closed spec fn item_id(&self) -> Seq<char> {
        self.id@
    }

    /// `GET /<calendar_id>/<item_id>.ics` with an empty body. `None`
    /// when the path does not compose with the configured URI.
    pub fn new(config: &CaldavConfig, calendar_id: &str, item_id: &str) -> (r: Option<
        ReadCalendarItem,
    >)
        ensures
            r is Some <==> target_for(*config, item_path_of(calendar_id@, item_id@)) is Some,
            r is Some ==> {
                &&& built_with(*config, Method::Get, item_path_of(calendar_id@, item_id@), r->0.request(), Seq::empty())
                &&& !r->0.is_done()
                &&& r->0.calendar_id() == calendar_id@
                &&& r->0.item_id() == item_id@
                &&& r->0.method() == Method::Get
                &&& r->0.target() == target_for(*config, item_path_of(calendar_id@, item_id@))->0
                &&& r->0.body().len() == 0
            },
    {
        let path = item_path(calendar_id, item_id);
        let request = match Request::get(config, path.as_str()) {
            Some(r) => r,
            None => return None,
        };
        Some(
            ReadCalendarItem {
                calendar_id: String::from_str(calendar_id),
                id: String::from_str(item_id),
                send: Send::new(request, Vec::new()),
            },
        )
    }

    /// Advances the exchange. A 2xx body that parses as iCalendar gives
    /// the item, with the ids it was asked for; one that does not fails
    /// with `ParseIcalResponseBody`.
    pub fn resume(&mut self, arg: Option<Vec<u8>>) -> (r: SendResult<CalendarItem>)
        requires
            !old(self).is_done(),
        ensures
            r is Io <==> !final(self).is_done(),
            r matches SendResult::Done(ok) ==> ok.body.id@ == old(self).item_id()
                && ok.body.calendar_id@ == old(self).calendar_id(),
            exists|s: SendResult<String>|
                old(self).exchange().resume_outcome(s) && #[trigger] read_outcome(
                    old(self).calendar_id(),
                    old(self).item_id(),
                    s,
                    r,
                ),
    {
        let s = self.send.resume(arg);
        let ghost sent = s;
        let r = read_result(&self.calendar_id, &self.id, s);
        assert(read_outcome(self.calendar_id@, self.id@, sent, r));
        assert(self.calendar_id == old(self).calendar_id && self.id == old(self).id);
        assert(old(self).exchange().resume_outcome(sent));
        assert(read_outcome(old(self).calendar_id(), old(self).item_id(), sent, r));
        r
    }
}

} // verus!
