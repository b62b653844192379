//! Listing the calendars under the calendar home set: `PROPFIND` with
//! `Depth: 1`, keeping only the collections marked `<calendar/>`.
use vstd::prelude::*;

use crate::caldav::config::CaldavConfig;
use crate::caldav::ids::{collection_id, collection_id_of};
use crate::caldav::request::{built_with, decimal, Method, Request};
use crate::caldav::response::{Multistatus, Propstat, PropstatResponse};
use crate::caldav::send::{is_2xx, utf8_lossy_of, Send, SendError, SendResult};
use crate::caldav::follow_redirects::opt_text_eq;
use crate::caldav::uri::UriParts;
use crate::calendar::Calendar;
use crate::text::{is_blank, str_is_blank};

verus! {

/// The `PROPFIND` body asking for the properties of each collection.
pub const BODY: &'static str = "<?xml version=\"1.0\" encoding=\"utf-8\"?><D:propfind xmlns:D=\"DAV:\" xmlns:C=\"urn:ietf:params:xml:ns:caldav\" xmlns:I=\"http://apple.com/ns/ical/\"><D:prop><D:resourcetype/><D:displayname/><I:calendar-color/><C:calendar-description/></D:prop></D:propfind>";

#[derive(Clone, Debug)]
pub struct Prop {
    pub resourcetype: Option<ResourceType>,
    pub displayname: Option<String>,
    pub calendar_color: Option<String>,
    pub calendar_description: Option<String>,
}

#[derive(Clone, Debug)]
pub struct ResourceType {
    /// Present when the collection is a calendar.
    pub calendar: Option<()>,
}

/// A calendar as id, display name, description and color.
pub type CalendarView = (Seq<char>, Option<Seq<char>>, Option<Seq<char>>, Option<Seq<char>>);

/// What the propstats of one response have told so far: marked as a
/// calendar, display name, description, color.
pub type Gathered = (bool, Option<Seq<char>>, Option<Seq<char>>, Option<Seq<char>>);

pub open spec fn calendar_view(c: Calendar) -> CalendarView {
    (
        c.id@,
        crate::caldav::uri::opt_view(c.display_name),
        crate::caldav::uri::opt_view(c.description),
        crate::caldav::uri::opt_view(c.color),
    )
}

pub open spec fn has_calendar_marker(p: Prop) -> bool {
    p.resourcetype is Some && p.resourcetype->0.calendar is Some
}

/// A non-blank value replaces what was there; a blank or missing one does not.
pub open spec fn keep_non_blank(new: Option<String>, old: Option<Seq<char>>) -> Option<Seq<char>> {
    match new {
        Some(s) => if is_blank(s@) {
            old
        } else {
            Some(s@)
        },
        None => old,
    }
}

/// What the propstats `ps` tell, read in order; failed ones are skipped.
pub open spec fn gathered(ps: Seq<Propstat<Prop>>) -> Gathered
    decreases ps.len(),
{
    if ps.len() == 0 {
        (false, None, None, None)
    } else {
        let g = gathered(ps.drop_last());
        let p = ps.last();
        if !p.status.spec_is_success() {
            g
        } else {
            (
                g.0 || has_calendar_marker(p.prop),
                keep_non_blank(p.prop.displayname, g.1),
                keep_non_blank(p.prop.calendar_description, g.2),
                keep_non_blank(p.prop.calendar_color, g.3),
            )
        }
    }
}

/// The calendar a response stands for, if it stands for one: it is not
/// reported as failed, has propstats, and one successful propstat marks
/// it `<calendar/>`.
pub open spec fn calendar_entry(r: PropstatResponse<Prop>) -> Option<CalendarView> {
    if r.spec_is_ok() && r.propstats is Some && gathered(r.propstats->0@).0 {
        let g = gathered(r.propstats->0@);
        Some((collection_id_of(r.href.value@), g.1, g.2, g.3))
    } else {
        None
    }
}

/// The calendars of `rs`, each once, in the order they first appear.
pub open spec fn listed(rs: Seq<PropstatResponse<Prop>>) -> Seq<CalendarView>
    decreases rs.len(),
{
    if rs.len() == 0 {
        Seq::empty()
    } else {
        match calendar_entry(rs.last()) {
            Some(c) => if listed(rs.drop_last()).contains(c) {
                listed(rs.drop_last())
            } else {
                listed(rs.drop_last()).push(c)
            },
            None => listed(rs.drop_last()),
        }
    }
}

/// Whether two calendars are equal in all four fields.
pub fn same_calendar(a: &Calendar, b: &Calendar) -> (r: bool)
    ensures
        r == (calendar_view(*a) == calendar_view(*b)),
{
    a.id.eq(&b.id) && opt_text_eq(&a.display_name, &b.display_name) && opt_text_eq(
        &a.description,
        &b.description,
    ) && opt_text_eq(&a.color, &b.color)
}

/// Whether `cs` holds a calendar equal to `c`.
fn holds_calendar(cs: &Vec<Calendar>, c: &Calendar) -> (r: bool)
    ensures
        r == cs@.map_values(|x: Calendar| calendar_view(x)).contains(calendar_view(*c)),
{
    let n = cs.len();
    let mut i: usize = 0;
    while i < n
        invariant
            n == cs@.len(),
            i <= n,
            forall|j: int| 0 <= j < i ==> calendar_view(#[trigger] cs@[j]) != calendar_view(*c),
        decreases n - i,
    {
        if same_calendar(&cs[i], c) {
            assert(cs@.map_values(|x: Calendar| calendar_view(x))[i as int] == calendar_view(*c));
            return true;
        }
        i = i + 1;
    }
    let ghost views = cs@.map_values(|x: Calendar| calendar_view(x));
    assert forall|j: int| 0 <= j < views.len() implies #[trigger] views[j] != calendar_view(*c) by {
        assert(calendar_view(cs@[j]) != calendar_view(*c));
    }
    false
}

/// Some successful propstat of `r` marks it `<calendar/>`.
pub open spec fn carries_calendar_marker(r: PropstatResponse<Prop>) -> bool {
    r.propstats is Some && exists|i: int|
        0 <= i < r.propstats->0@.len() && (#[trigger] r.propstats->0@[i]).status.spec_is_success()
            && has_calendar_marker(r.propstats->0@[i].prop)
}

proof fn lemma_marker_gathered(ps: Seq<Propstat<Prop>>)
    ensures
        gathered(ps).0 ==> exists|i: int|
            0 <= i < ps.len() && (#[trigger] ps[i]).status.spec_is_success() && has_calendar_marker(
                ps[i].prop,
            ),
    decreases ps.len(),
{
    if ps.len() > 0 {
        lemma_marker_gathered(ps.drop_last());
        if gathered(ps.drop_last()).0 {
            let i = choose|i: int|
                0 <= i < ps.drop_last().len() && (#[trigger] ps.drop_last()[i]).status.spec_is_success()
                    && has_calendar_marker(ps.drop_last()[i].prop);
            assert(ps[i] == ps.drop_last()[i]);
        } else if gathered(ps).0 {
            assert(ps[ps.len() - 1] == ps.last());
        }
    }
}

/// A collection that no successful propstat marks `<calendar/>` is
/// never listed, whatever display name or description it carries:
/// adding its response leaves the listing as it was.
pub proof fn lemma_calendar_filter(rs: Seq<PropstatResponse<Prop>>, r: PropstatResponse<Prop>)
    requires
        !carries_calendar_marker(r),
    ensures
        calendar_entry(r) is None,
        listed(rs.push(r)) == listed(rs),
{
    if r.propstats is Some {
        lemma_marker_gathered(r.propstats->0@);
    }
    assert(rs.push(r).drop_last() =~= rs);
}

/// `c` is the calendar of some response of `rs` that a successful
/// propstat marks `<calendar/>`, and carries that response's id.
pub open spec fn from_marked_response(rs: Seq<PropstatResponse<Prop>>, c: CalendarView) -> bool {
    exists|i: int|
        0 <= i < rs.len() && calendar_entry(#[trigger] rs[i]) == Some(c) && carries_calendar_marker(
            rs[i],
        ) && c.0 == collection_id_of(rs[i].href.value@)
}

/// Every listed calendar comes from a response that a successful
/// propstat marks `<calendar/>`, and carries that response's id.
pub proof fn lemma_listed_are_calendars(rs: Seq<PropstatResponse<Prop>>)
    ensures
        forall|k: int| 0 <= k < listed(rs).len() ==> #[trigger] from_marked_response(rs, listed(rs)[k]),
    decreases rs.len(),
{
    if rs.len() > 0 {
        let prev = rs.drop_last();
        lemma_listed_are_calendars(prev);
        let last = rs.last();
        if last.propstats is Some {
            lemma_marker_gathered(last.propstats->0@);
        }
        assert forall|k: int| 0 <= k < listed(rs).len() implies #[trigger] from_marked_response(
            rs,
            listed(rs)[k],
        ) by {
            if k < listed(prev).len() {
                assert(listed(rs)[k] == listed(prev)[k]);
                assert(from_marked_response(prev, listed(prev)[k]));
                let i = choose|i: int|
                    0 <= i < prev.len() && calendar_entry(#[trigger] prev[i]) == Some(listed(prev)[k])
                        && carries_calendar_marker(prev[i]) && listed(prev)[k].0
                        == collection_id_of(prev[i].href.value@);
                assert(rs[i] == prev[i]);
            } else {
                assert(rs[rs.len() - 1] == last);
            }
        }
    }
}

/// Lists the calendars under the configured URI (the calendar home set).
#[derive(Debug)]
pub struct ListCalendars(Send);

impl ListCalendars {
    pub closed spec fn is_done(&self) -> bool {
        self.0.is_done()
    }

    /// The exchange this workflow drives.
    pub closed spec fn exchange(&self) -> Send {
        self.0
    }

    /// The request this workflow sends.
    pub closed spec fn request(&self) -> Request {
        self.0.request()
    }

    pub closed spec fn method(&self) -> Method {
        self.0.request().method
    }

    pub closed spec fn target(&self) -> UriParts {
        self.0.request().uri.parts()
    }

    pub closed spec fn body(&self) -> Seq<u8> {
        self.0.body()
    }

    /// `PROPFIND` on the configured URI with `Depth: 1`.
    pub fn new(config: &CaldavConfig) -> (r: ListCalendars)
        ensures
            !r.is_done(),
            r.method() == Method::Propfind,
            r.target() == config.uri.parts(),
            r.body() == vstd::utf8::encode_utf8(BODY@),
            built_with(*config, Method::Propfind, Seq::empty(), r.request(), Seq::empty().push(("Depth"@, decimal(1)))),
    {
        proof {
            reveal_strlit("");
        }
        let request = Request::propfind(config, "").unwrap().depth(1);
        ListCalendars(Send::new(request, BODY.as_bytes_vec()))
    }

    /// Advances the exchange; a `Done` carries the XML body, which
    /// `calendars` reads once decoded.
    pub fn resume(&mut self, arg: Option<Vec<u8>>) -> (r: SendResult<String>)
        requires
            !old(self).is_done(),
        ensures
            r is Io <==> !final(self).is_done(),
            old(self).exchange().resume_outcome(r),
            r matches SendResult::Done(ok) ==> is_2xx(ok.response.status) && ok.body@
                == utf8_lossy_of(ok.response.body@),
            r matches SendResult::Failed(SendError::Response(s, _)) ==> !is_2xx(s),
    {
        self.0.resume(arg)
    }

    /// The calendars of a decoded multistatus, each once, in order: see `listed`.
    pub fn calendars(body: &Multistatus<Prop>) -> (r: Vec<Calendar>)
        ensures
            r@.map_values(|c: Calendar| calendar_view(c)) == match body.responses {
                Some(rs) => listed(rs@),
                None => Seq::empty(),
            },
            body.responses is Some ==> forall|k: int|
                0 <= k < r@.len() ==> #[trigger] from_marked_response(
                    body.responses->0@,
                    calendar_view(r@[k]),
                ),
    {
        let mut out: Vec<Calendar> = Vec::new();
        let rs = match &body.responses {
            Some(rs) => rs,
            None => {
                assert(out@.map_values(|c: Calendar| calendar_view(c)) =~= Seq::empty());
                return out;
            },
        };
        let n = rs.len();
        let mut i: usize = 0;
        while i < n
            invariant
                n == rs@.len(),
                i <= n,
                out@.map_values(|c: Calendar| calendar_view(c)) == listed(
                    rs@.subrange(0, i as int),
                ),
            decreases n - i,
        {
            let entry = calendar_of(&rs[i]);
            assert(rs@.subrange(0, i + 1).drop_last() =~= rs@.subrange(0, i as int));
            match entry {
                Some(c) => {
                    if !holds_calendar(&out, &c) {
                        out.push(c);
                    }
                },
                None => {},
            }
            assert(out@.map_values(|c: Calendar| calendar_view(c)) =~= listed(
                rs@.subrange(0, i + 1),
            ));
            i = i + 1;
        }
        assert(rs@.subrange(0, n as int) =~= rs@);
        proof {
            lemma_listed_are_calendars(rs@);
            assert forall|k: int| 0 <= k < out@.len() implies #[trigger] from_marked_response(
                rs@,
                calendar_view(out@[k]),
            ) by {
                assert(out@.map_values(|c: Calendar| calendar_view(c))[k] == calendar_view(out@[k]));
            }
        }
        out
    }
}

/// A non-blank `new` replaces `old`.
fn keep_non_blank_value(new: &Option<String>, old: Option<String>) -> (r: Option<String>)
    ensures
        crate::caldav::uri::opt_view(r) == keep_non_blank(*new, crate::caldav::uri::opt_view(old)),
{
    match new {
        Some(s) => {
            if str_is_blank(s.as_str()) {
                old
            } else {
                Some(s.clone())
            }
        },
        None => old,
    }
}

/// The calendar one response stands for (see `calendar_entry`).
fn calendar_of(r: &PropstatResponse<Prop>) -> (c: Option<Calendar>)
    ensures
        match c {
            Some(c) => calendar_entry(*r) == Some(calendar_view(c)),
            None => calendar_entry(*r) is None,
        },
{
    if !r.is_ok() {
        return None;
    }
    let ps = match &r.propstats {
        Some(ps) => ps,
        None => return None,
    };
    let mut is_calendar = false;
    let mut name: Option<String> = None;
    let mut desc: Option<String> = None;
    let mut color: Option<String> = None;
    let n = ps.len();
    let mut j: usize = 0;
    while j < n
        invariant
            n == ps@.len(),
            j <= n,
            gathered(ps@.subrange(0, j as int)) == (
                is_calendar,
                crate::caldav::uri::opt_view(name),
                crate::caldav::uri::opt_view(desc),
                crate::caldav::uri::opt_view(color),
            ),
        decreases n - j,
    {
        let p = &ps[j];
        assert(ps@.subrange(0, j + 1).drop_last() =~= ps@.subrange(0, j as int));
        if p.status.is_success() {
            match &p.prop.resourcetype {
                Some(rt) => {
                    if rt.calendar.is_some() {
                        is_calendar = true;
                    }
                },
                None => {},
            }
            name = keep_non_blank_value(&p.prop.displayname, name);
            desc = keep_non_blank_value(&p.prop.calendar_description, desc);
            color = keep_non_blank_value(&p.prop.calendar_color, color);
        }
        j = j + 1;
    }
    assert(ps@.subrange(0, n as int) =~= ps@);
    if !is_calendar {
        return None;
    }
    let id = collection_id(r.href.value.as_str());
    Some(Calendar { id, display_name: name, description: desc, color })
}

} // verus!
