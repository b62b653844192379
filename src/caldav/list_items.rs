//! Listing the items of a calendar: a `calendar-query` `REPORT`, with an
//! optional component filter and, beside it, an optional time range.
use vstd::prelude::*;

use crate::caldav::config::CaldavConfig;
use crate::caldav::ids::{item_id, item_id_of};
use crate::caldav::request::{built_with, decimal, target_for, Method, Request};
use crate::caldav::response::{Multistatus, Propstat, PropstatResponse, Value};
use crate::caldav::send::{is_2xx, utf8_lossy_of, Send, SendError, SendResult};
use crate::caldav::time_range::TimeRange;
use crate::caldav::uri::{opt_view, UriParts};
use crate::item::{component_name, ical_parses, CalendarItem};

verus! {

#[derive(Clone, Debug)]
pub struct Prop {
    pub calendar_data: Option<Value>,
}

pub open spec fn query_head() -> Seq<char> {
    "<?xml version=\"1.0\" encoding=\"utf-8\"?><C:calendar-query xmlns:D=\"DAV:\" xmlns:C=\"urn:ietf:params:xml:ns:caldav\"><D:prop><D:getetag/><C:calendar-data/></D:prop><C:filter><C:comp-filter name=\"VCALENDAR\">"@
}

pub open spec fn query_tail() -> Seq<char> {
    "</C:comp-filter></C:filter></C:calendar-query>"@
}

/// The attribute ` name="value"`, or nothing.
pub open spec fn attribute(name: Seq<char>, value: Option<Seq<char>>) -> Seq<char> {
    match value {
        Some(v) => " "@ + name + "=\""@ + v + "\""@,
        None => Seq::empty(),
    }
}

/// The component filter: none without a component; a time range is
/// written only inside a component filter.
pub open spec fn component_filter(
    component: Option<Seq<char>>,
    range: Option<(Option<Seq<char>>, Option<Seq<char>>)>,
) -> Seq<char> {
    match component {
        None => Seq::empty(),
        Some(c) => match range {
            None => "<C:comp-filter name=\""@ + c + "\"/>"@,
            Some(r) => "<C:comp-filter name=\""@ + c + "\"><C:time-range"@ + attribute(
                "start"@,
                r.0,
            ) + attribute("end"@, r.1) + "/></C:comp-filter>"@,
        },
    }
}

pub open spec fn range_view(range: Option<TimeRange>) -> Option<(Option<Seq<char>>, Option<Seq<char>>)> {
    match range {
        Some(t) => Some((opt_view(t.spec_start()), opt_view(t.spec_end()))),
        None => None,
    }
}

fn push_attribute(out: &mut String, name: &str, value: Option<&str>)
    ensures
        final(out)@ == old(out)@ + attribute(
            name@,
            match value {
                Some(v) => Some(v@),
                None => None,
            },
        ),
{
    match value {
        Some(v) => {
            out.append(" ");
            out.append(name);
            out.append("=\"");
            out.append(v);
            out.append("\"");
        },
        None => {},
    }
}

/// The `calendar-query` body for a component filter (by name) and an
/// optional time range inside it.
pub fn calendar_query_body(component: Option<&str>, range: Option<&TimeRange>) -> (r: String)
    ensures
        r@ == query_head() + component_filter(
            match component {
                Some(c) => Some(c@),
                None => None,
            },
            match range {
                Some(t) => range_view(Some(*t)),
                None => None,
            },
        ) + query_tail(),
{
    let mut out = String::from_str(
        "<?xml version=\"1.0\" encoding=\"utf-8\"?><C:calendar-query xmlns:D=\"DAV:\" xmlns:C=\"urn:ietf:params:xml:ns:caldav\"><D:prop><D:getetag/><C:calendar-data/></D:prop><C:filter><C:comp-filter name=\"VCALENDAR\">",
    );
    match component {
        Some(c) => {
            out.append("<C:comp-filter name=\"");
            out.append(c);
            match range {
                None => {
                    out.append("\"/>");
                },
                Some(t) => {
                    out.append("\"><C:time-range");
                    push_attribute(&mut out, "start", t.start());
                    push_attribute(&mut out, "end", t.end());
                    out.append("/></C:comp-filter>");
                },
            }
        },
        None => {},
    }
    out.append("</C:comp-filter></C:filter></C:calendar-query>");
    out
}

/// The `x`th propstat of `ps` is successful and carries calendar data
/// that parses.
pub open spec fn gives_item(ps: Seq<Propstat<Prop>>, x: int) -> bool {
    &&& ps[x].status.spec_is_success()
    &&& ps[x].prop.calendar_data is Some
    &&& ical_parses(ps[x].prop.calendar_data->0.value@)
}

/// A response gives an item: it is not reported as failed and one of
/// its successful propstats carries calendar data that parses.
pub open spec fn yields_item(r: PropstatResponse<Prop>) -> bool {
    &&& r.spec_is_ok()
    &&& r.propstats is Some
    &&& exists|x: int| 0 <= x < r.propstats->0@.len() && #[trigger] gives_item(r.propstats->0@, x)
}

/// The ids of the items the responses `rs` give, each once, in the
/// order they first appear (items of one calendar are the same item
/// when their ids are).
pub open spec fn listed_item_ids(rs: Seq<PropstatResponse<Prop>>) -> Seq<Seq<char>>
    decreases rs.len(),
{
    if rs.len() == 0 {
        Seq::empty()
    } else if yields_item(rs.last()) && !listed_item_ids(rs.drop_last()).contains(
        item_id_of(rs.last().href.value@),
    ) {
        listed_item_ids(rs.drop_last()).push(item_id_of(rs.last().href.value@))
    } else {
        listed_item_ids(rs.drop_last())
    }
}

/// Whether `items` holds an item with id `id`.
fn holds_item(items: &Vec<CalendarItem>, id: &String) -> (r: bool)
    ensures
        r == items@.map_values(|it: CalendarItem| it.id@).contains(id@),
{
    let n = items.len();
    let mut i: usize = 0;
    while i < n
        invariant
            n == items@.len(),
            i <= n,
            forall|j: int| 0 <= j < i ==> (#[trigger] items@[j]).id@ != id@,
        decreases n - i,
    {
        if items[i].id.eq(id) {
            assert(items@.map_values(|it: CalendarItem| it.id@)[i as int] == id@);
            return true;
        }
        i = i + 1;
    }
    let ghost ids = items@.map_values(|it: CalendarItem| it.id@);
    assert forall|j: int| 0 <= j < ids.len() implies #[trigger] ids[j] != id@ by {
        assert(items@[j].id@ != id@);
    }
    false
}

/// Lists the items of one calendar.
#[derive(Debug)]
pub struct ListCalendarItems {
    calendar_id: String,
    send: Send,
}

impl ListCalendarItems {
    pub closed spec fn is_done(&self) -> bool {
        self.send.is_done()
    }

    /// The exchange this workflow drives.
    pub closed spec fn exchange(&self) -> Send {
        self.send
    }

    /// The request this workflow sends.
    pub closed spec fn request(&self) -> Request {
        self.send.request()
    }

    pub closed spec fn method(&self) -> Method {
        self.send.request().method
    }

    pub closed spec fn target(&self) -> UriParts {
        self.send.request().uri.parts()
    }

    pub closed spec fn body(&self) -> Seq<u8> {
        self.send.body()
    }

    pub closed spec fn calendar_id(&self) -> Seq<char> {
        self.calendar_id@
    }

    /// `REPORT /<calendar_id>` with `Depth: 1` and a `calendar-query`
    /// body: filtered on `filter` when given, and on `range` within it
    /// (a range without a component filter is dropped). `None` when the
    /// path does not compose with the configured URI.
    pub fn new(
        config: &CaldavConfig,
        calendar_id: &str,
        filter: Option<calcard::icalendar::ICalendarComponentType>,
        range: Option<TimeRange>,
    ) -> (r: Option<ListCalendarItems>)
        ensures
            r is Some <==> target_for(*config, calendar_id@) is Some,
            r is Some ==> {
                &&& built_with(*config, Method::Report, calendar_id@, r->0.request(), Seq::empty().push(("Content-Type"@, "text/xml; charset=utf-8"@)).push(("Depth"@, decimal(1))))
                &&& !r->0.is_done()
                &&& r->0.calendar_id() == calendar_id@
                &&& r->0.method() == Method::Report
                &&& r->0.target() == target_for(*config, calendar_id@)->0
                &&& filter is None ==> r->0.body() == vstd::utf8::encode_utf8(
                    query_head() + query_tail(),
                )
                &&& filter is Some ==> exists|n: Seq<char>|
                    r->0.body() == vstd::utf8::encode_utf8(
                        query_head() + #[trigger] component_filter(Some(n), range_view(range))
                            + query_tail(),
                    )
            },
    {
        let request = match Request::report(config, calendar_id) {
            Some(r) => r.content_type_xml().depth(1),
            None => return None,
        };
        let name = match &filter {
            Some(c) => Some(component_name(c)),
            None => None,
        };
        let ghost mut named: Seq<char> = Seq::empty();
        let body = match &name {
            Some(n) => {
                proof {
                    named = n@;
                }
                calendar_query_body(Some(n.as_str()), range.as_ref())
            },
            None => calendar_query_body(None, None),
        };
        let r = ListCalendarItems {
            calendar_id: String::from_str(calendar_id),
            send: Send::new(request, body.as_str().as_bytes_vec()),
        };
        assert(filter is Some ==> body@ == query_head() + component_filter(
            Some(named),
            range_view(range),
        ) + query_tail());
        Some(r)
    }

    /// Advances the exchange; a `Done` carries the XML body, which
    /// `items` reads once decoded.
    pub fn resume(&mut self, arg: Option<Vec<u8>>) -> (r: SendResult<String>)
        requires
            !old(self).is_done(),
        ensures
            r is Io <==> !final(self).is_done(),
            old(self).exchange().resume_outcome(r),
            r matches SendResult::Done(ok) ==> is_2xx(ok.response.status) && ok.body@
                == utf8_lossy_of(ok.response.body@),
            r matches SendResult::Failed(SendError::Response(s, _)) ==> !is_2xx(s),
            final(self).calendar_id() == old(self).calendar_id(),
    {
        self.send.resume(arg)
    }

    /// The items of a decoded multistatus: for each response not
    /// reported as failed, the first successful propstat whose calendar
    /// data parses as iCalendar gives an item, its id read from the href;
    /// an id already listed is not listed again.
    pub fn items(&self, body: &Multistatus<Prop>) -> (r: Vec<CalendarItem>)
        ensures
            r@.map_values(|it: CalendarItem| it.id@) == match body.responses {
                Some(rs) => listed_item_ids(rs@),
                None => Seq::empty(),
            },
            forall|k: int| 0 <= k < r@.len() ==> (#[trigger] r@[k]).calendar_id@ == self.calendar_id(),
    {
        let mut out: Vec<CalendarItem> = Vec::new();
        let rs = match &body.responses {
            Some(rs) => rs,
            None => {
                assert(out@.map_values(|it: CalendarItem| it.id@) =~= Seq::empty());
                return out;
            },
        };
        let n = rs.len();
        let mut i: usize = 0;
        while i < n
            invariant
                n == rs@.len(),
                i <= n,
                out@.map_values(|it: CalendarItem| it.id@) == listed_item_ids(
                    rs@.subrange(0, i as int),
                ),
                forall|k: int|
                    0 <= k < out@.len() ==> (#[trigger] out@[k]).calendar_id@ == self.calendar_id(),
            decreases n - i,
        {
            let found = self.item_of(&rs[i]);
            assert(rs@.subrange(0, i + 1).drop_last() =~= rs@.subrange(0, i as int));
            assert(rs@.subrange(0, i + 1).last() == rs@[i as int]);
            match found {
                Some(item) => {
                    if !holds_item(&out, &item.id) {
                        out.push(item);
                    }
                },
                None => {},
            }
            assert(out@.map_values(|it: CalendarItem| it.id@) =~= listed_item_ids(
                rs@.subrange(0, i + 1),
            ));
            i = i + 1;
        }
        assert(rs@.subrange(0, n as int) =~= rs@);
        out
    }

    /// The item one response gives: the first successful propstat whose
    /// calendar data parses.
    fn item_of(&self, r: &PropstatResponse<Prop>) -> (item: Option<CalendarItem>)
        ensures
            item is Some <==> yields_item(*r),
            item matches Some(it) ==> it.calendar_id@ == self.calendar_id() && it.id@
                == item_id_of(r.href.value@),
    {
        if !r.is_ok() {
            return None;
        }
        let ps = match &r.propstats {
            Some(ps) => ps,
            None => return None,
        };
        let m = ps.len();
        let mut j: usize = 0;
        while j < m
            invariant
                m == ps@.len(),
                j <= m,
                r.spec_is_ok(),
                r.propstats == Some(*ps),
                forall|x: int| 0 <= x < j ==> !#[trigger] gives_item(ps@, x),
            decreases m - j,
        {
            let p = &ps[j];
            if p.status.is_success() {
                match &p.prop.calendar_data {
                    Some(content) => match CalendarItem::parse(content.value.as_str()) {
                        Ok(ical) => {
                            assert(gives_item(ps@, j as int));
                            assert(r.propstats->0@ == ps@);
                            assert(gives_item(r.propstats->0@, j as int));
                            let id = item_id(r.href.value.as_str());
                            return Some(
                                CalendarItem { id, calendar_id: self.calendar_id.clone(), ical },
                            );
                        },
                        Err(_) => {},
                    },
                    None => {},
                }
            }
            assert(!gives_item(ps@, j as int));
            j = j + 1;
        }
        None
    }
}

} // verus!
