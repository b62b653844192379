use io_calendar::caldav::config::{CaldavAuth, CaldavConfig, Secret};
use io_calendar::caldav::create_calendar::mkcol_body;
use io_calendar::caldav::current_user_principal::{CurrentUserPrincipal, Prop as PrincipalProp};
use io_calendar::caldav::delete_calendar::{DeleteCalendar, Response as DeleteResponse};
use io_calendar::caldav::delete_item::{DeleteCalendarItem, Response as DeleteItemResponse};
use io_calendar::caldav::follow_redirects::{FollowRedirects, FollowRedirectsResult};
use io_calendar::caldav::ids::{collection_id, item_id, item_path};
use io_calendar::caldav::list_calendars::{ListCalendars, Prop as CalendarProp, ResourceType};
use io_calendar::caldav::list_items::calendar_query_body;
use io_calendar::caldav::read_item::ReadCalendarItem;
use io_calendar::caldav::request::{basic_authorization, Method, Request};
use io_calendar::caldav::response::{
    HrefProp, Multistatus, Propstat, PropstatResponse, Status, StatusResponse, Value,
};
use io_calendar::caldav::send::{check_status, Response, Send, SendError, SendResult, StreamIo};
use io_calendar::caldav::time_range::{TimeRange, TimeRangeError};
use io_calendar::caldav::update_calendar::proppatch_body;
use io_calendar::caldav::uri::{push_uri_path, rebase, set_uri_path, Uri};
use io_calendar::caldav::well_known::{discovered, WellKnownError};
use io_calendar::calendar::Calendar;

fn uri(s: &str) -> Uri {
    Uri::parse(s).unwrap()
}

fn value(s: &str) -> Value {
    Value { value: s.to_string() }
}

fn status(s: &str) -> Status {
    Status(value(s))
}

fn config(auth: CaldavAuth) -> CaldavConfig {
    CaldavConfig { uri: uri("https://127.0.0.1:8001/username"), auth }
}

fn basic() -> CaldavAuth {
    CaldavAuth::Basic { username: "username".to_string(), password: Secret::new("password".to_string()) }
}

fn header<'a>(req: &'a Request, name: &str) -> Option<&'a str> {
    req.headers.iter().find(|(k, _)| k == name).map(|(_, v)| v.as_str())
}

fn written(r: &SendResult<String>) -> String {
    match r {
        SendResult::Io(StreamIo::Write(b)) => String::from_utf8(b.clone()).unwrap(),
        other => panic!("expected a write, got {other:?}"),
    }
}

#[test]
fn push_uri_path_joins_with_one_slash() {
    let u = push_uri_path(uri("https://h/a/"), "/b/c?x=1").unwrap();
    assert_eq!(u.as_string(), "https://h/a/b/c?x=1");
    assert_eq!(u.path, "/a/b/c");
    assert_eq!(u.query.as_deref(), Some("x=1"));
}

#[test]
fn push_uri_path_keeps_base_query() {
    let u = push_uri_path(uri("https://h/a?q=1"), "b").unwrap();
    assert_eq!(u.as_string(), "https://h/a/b?q=1");
}

#[test]
fn push_uri_path_empty_is_noop() {
    let u = push_uri_path(uri("https://h/a/?q=1"), "").unwrap();
    assert_eq!(u.as_string(), "https://h/a/?q=1");
}

#[test]
fn set_uri_path_replaces_path() {
    let u = set_uri_path(uri("https://h/x/y"), "/z").unwrap();
    assert_eq!(u.as_string(), "https://h/z");
    assert_eq!(u.query, None);
}

#[test]
fn push_uri_path_refuses_invalid_path() {
    assert!(push_uri_path(uri("https://h/a"), "b c").is_none());
}

#[test]
fn uri_parts_come_from_http() {
    let u = uri("https://user@h:8443/p?q");
    assert_eq!(u.scheme.as_deref(), Some("https"));
    assert_eq!(u.authority.as_deref(), Some("user@h:8443"));
    assert_eq!(u.host.as_deref(), Some("h"));
    assert_eq!(u.port.as_deref(), Some("8443"));
    assert_eq!(u.path, "/p");
    assert_eq!(u.query.as_deref(), Some("q"));
    assert!(Uri::parse("").is_none());
}

#[test]
fn time_range_needs_a_bound() {
    assert!(TimeRange::new(None, None).is_err());
    assert!(TimeRange::new(Some("20260214T000000Z".to_string()), None).is_ok());
    assert!(TimeRange::new(None, Some("20261231T235959Z".to_string())).is_ok());
}

#[test]
fn time_range_rejects_malformed_timestamps() {
    let bad = [
        "2026-02-14T00:00:00Z",
        "20260214T000000",
        "20260214 000000Z",
        "20261301T000000Z",
        "20260200T000000Z",
        "20260232T000000Z",
        "20260214T250000Z",
        "20260214T006000Z",
        "20260214T000060Z",
        "20260214T00000\"Z",
        "<script>alert</s",
    ];
    for s in bad {
        assert!(TimeRange::new(Some(s.to_string()), None).is_err(), "{s}");
    }
}

#[test]
fn time_range_accepts_boundaries() {
    for s in ["20260101T000000Z", "20261231T235959Z"] {
        assert!(TimeRange::new(Some(s.to_string()), None).is_ok(), "{s}");
    }
}

#[test]
fn time_range_error_variants() {
    assert_eq!(TimeRange::new(None, None).unwrap_err(), TimeRangeError::MissingBounds);
    assert_eq!(
        TimeRange::new(Some("x".to_string()), Some("y".to_string())).unwrap_err(),
        TimeRangeError::InvalidStart("x".to_string())
    );
    assert_eq!(
        TimeRange::new(Some("20260101T000000Z".to_string()), Some("y".to_string())).unwrap_err(),
        TimeRangeError::InvalidEnd("y".to_string())
    );
}

#[test]
fn status_success_detection() {
    assert!(status("HTTP/1.1 200 OK").is_success());
    assert!(status("HTTP/1.1 207 Multi-Status").is_success());
    assert!(!status("HTTP/1.1 404 Not Found").is_success());
}

#[test]
fn request_sets_host_and_basic_authorization() {
    let req = Request::new(&config(basic()), Method::Propfind, "/").unwrap();
    assert_eq!(req.method.as_str(), "PROPFIND");
    assert_eq!(req.uri.as_string(), "https://127.0.0.1:8001/username/");
    assert_eq!(header(&req, "Host"), Some("127.0.0.1:8001"));
    assert_eq!(header(&req, "Authorization"), Some("Basic dXNlcm5hbWU6cGFzc3dvcmQ="));
    assert_eq!(basic_authorization("username", "password"), "Basic dXNlcm5hbWU6cGFzc3dvcmQ=");
}

#[test]
fn request_sets_bearer_authorization() {
    let cfg = config(CaldavAuth::Bearer { token: Secret::new("t0k".to_string()) });
    let req = Request::get(&cfg, "").unwrap();
    assert_eq!(header(&req, "Authorization"), Some("Bearer t0k"));
}

#[test]
fn request_plain_has_no_authorization() {
    let cfg = CaldavConfig { uri: uri("http://example.org/dav/"), auth: CaldavAuth::default() };
    let req = Request::report(&cfg, "cal").unwrap().depth(1).content_type_xml();
    assert_eq!(req.uri.as_string(), "http://example.org/dav/cal");
    assert_eq!(header(&req, "Host"), Some("example.org"));
    assert_eq!(header(&req, "Authorization"), None);
    assert_eq!(header(&req, "Depth"), Some("1"));
    assert_eq!(header(&req, "Content-Type"), Some("text/xml; charset=utf-8"));
    let req = Request::put(&cfg, "/a/b.ics").unwrap().content_type_ical().depth(12);
    assert_eq!(header(&req, "Content-Type"), Some("text/calendar; charset=utf-8"));
    assert_eq!(header(&req, "Depth"), Some("12"));
}

#[test]
fn secrets_are_redacted() {
    let cfg = config(CaldavAuth::Basic {
        username: "username".to_string(),
        password: Secret::new("hunter2-password".to_string()),
    });
    let shown = format!("{cfg:?}");
    assert!(!shown.contains("hunter2-password"), "{shown}");
    let cfg = config(CaldavAuth::Bearer { token: Secret::new("tok-secret-value".to_string()) });
    let shown = format!("{cfg:?}");
    assert!(!shown.contains("tok-secret-value"), "{shown}");
}

#[test]
fn ids_from_hrefs() {
    assert_eq!(collection_id("/dav/calendars/user/work/"), "work");
    assert_eq!(collection_id("https://h/dav/work"), "work");
    assert_eq!(item_id("/dav/work/abc.ics"), "abc");
    assert_eq!(item_id("/dav/work/abc.ics/"), "abc");
    assert_eq!(item_path("work", "abc"), "/work/abc.ics");
}

fn calendar_response(href: &str, marker: bool, name: Option<&str>) -> PropstatResponse<CalendarProp> {
    PropstatResponse {
        href: value(href),
        status: None,
        propstats: Some(vec![Propstat {
            prop: CalendarProp {
                resourcetype: Some(ResourceType { calendar: if marker { Some(()) } else { None } }),
                displayname: name.map(String::from),
                calendar_color: Some("  ".to_string()),
                calendar_description: Some("Desc".to_string()),
            },
            status: status("HTTP/1.1 200 OK"),
        }]),
    }
}

#[test]
fn list_calendars_keeps_only_calendars() {
    let body = Multistatus {
        responses: Some(vec![
            calendar_response("/dav/home/", false, Some("Home")),
            calendar_response("/dav/home/work/", true, Some("Work")),
            calendar_response("/dav/home/files/", false, Some("Files")),
        ]),
    };
    let calendars = ListCalendars::calendars(&body);
    assert_eq!(
        calendars,
        vec![Calendar {
            id: "work".to_string(),
            display_name: Some("Work".to_string()),
            description: Some("Desc".to_string()),
            color: None,
        }]
    );
    assert!(ListCalendars::calendars(&Multistatus { responses: None }).is_empty());
}

#[test]
fn list_calendars_skips_failed_propstats() {
    let mut r = calendar_response("/dav/home/work/", true, Some("Work"));
    r.propstats.as_mut().unwrap()[0].status = status("HTTP/1.1 404 Not Found");
    let body = Multistatus { responses: Some(vec![r]) };
    assert!(ListCalendars::calendars(&body).is_empty());
}

#[test]
fn principal_is_first_successful_href() {
    let prop = |h: &str| PrincipalProp { current_user_principal: HrefProp { href: value(h) } };
    let body = Multistatus {
        responses: Some(vec![
            PropstatResponse {
                href: value("/"),
                status: Some(status("HTTP/1.1 404 Not Found")),
                propstats: Some(vec![Propstat { prop: prop("/wrong/"), status: status("HTTP/1.1 200 OK") }]),
            },
            PropstatResponse {
                href: value("/"),
                status: None,
                propstats: Some(vec![
                    Propstat { prop: prop("/bad/"), status: status("HTTP/1.1 403 Forbidden") },
                    Propstat { prop: prop("/principals/me/"), status: status("HTTP/1.1 200 OK") },
                ]),
            },
        ]),
    };
    let u = CurrentUserPrincipal::principal(&body).unwrap();
    assert_eq!(u.path, "/principals/me/");
    assert_eq!(u.authority, None);
    assert!(CurrentUserPrincipal::principal(&Multistatus { responses: None }).is_none());
}

#[test]
fn query_body_with_filter_and_range() {
    let range = TimeRange::new(Some("20260101T000000Z".to_string()), None).unwrap();
    let body = calendar_query_body(Some("VEVENT"), Some(&range));
    assert!(body.contains(
        "<C:comp-filter name=\"VCALENDAR\"><C:comp-filter name=\"VEVENT\"><C:time-range start=\"20260101T000000Z\"/></C:comp-filter></C:comp-filter>"
    ), "{body}");
    let body = calendar_query_body(Some("VTODO"), None);
    assert!(body.contains("<C:comp-filter name=\"VTODO\"/></C:comp-filter>"), "{body}");
    let body = calendar_query_body(None, Some(&range));
    assert!(!body.contains("time-range"), "{body}");
}

#[test]
fn metadata_bodies_hold_present_fields_only() {
    let mut cal = Calendar { id: "c".to_string(), display_name: None, description: None, color: None };
    let body = mkcol_body(&cal);
    assert!(body.contains("<resourcetype><collection/><C:calendar/></resourcetype></prop>"), "{body}");
    assert!(!body.contains("displayname"));
    cal.display_name = Some("Custom calendar name".to_string());
    cal.color = Some("#000000".to_string());
    let body = proppatch_body(&cal);
    assert!(body.contains("<prop><displayname>Custom calendar name</displayname><I:calendar-color>#000000</I:calendar-color></prop>"), "{body}");
}

#[test]
fn check_status_splits_success_and_failure() {
    let ok = Response { status: 207, headers: vec![], body: b"<a/>".to_vec() };
    assert_eq!(check_status(&ok).unwrap(), "<a/>");
    let bad = Response { status: 404, headers: vec![], body: b"nope".to_vec() };
    match check_status(&bad) {
        Err(SendError::Response(404, text)) => assert_eq!(text, "nope"),
        other => panic!("{other:?}"),
    }
}

#[test]
fn delete_results() {
    let ok = DeleteResponse { response: StatusResponse { status: status("HTTP/1.1 200 OK") } };
    assert!(DeleteCalendar::deleted(&ok));
    let item = DeleteItemResponse { response: StatusResponse { status: status("HTTP/1.1 423 Locked") } };
    assert!(!DeleteCalendarItem::deleted(200, Some(&item)));
    assert!(DeleteCalendarItem::deleted(204, None));
    assert!(!DeleteCalendarItem::deleted(200, None));
}

#[test]
fn well_known_reads_location() {
    let from = uri("https://h/.well-known/caldav");
    let resp = |status: u16, loc: Option<&str>| Response {
        status,
        headers: loc.map(|l| vec![("location".to_string(), l.to_string())]).unwrap_or_default(),
        body: b"moved".to_vec(),
    };
    let ok = discovered(&from, &resp(301, Some("/dav/")), true).unwrap();
    assert_eq!(ok.uri.path, "/dav/");
    assert!(ok.keep_alive);
    let ok = discovered(&from, &resp(302, Some("https://other/dav/")), true).unwrap();
    assert!(!ok.keep_alive);
    assert!(matches!(discovered(&from, &resp(200, None), true), Err(WellKnownError::NotRedirected(200, _))));
    assert!(matches!(discovered(&from, &resp(301, None), true), Err(WellKnownError::MissingLocationHeader)));
    assert!(matches!(discovered(&from, &resp(301, Some("h\u{e9}")), true), Err(WellKnownError::InvalidLocationHeader(_))));
    assert!(matches!(discovered(&from, &resp(301, Some("a b")), true), Err(WellKnownError::InvalidLocationUri(_))));
}

#[test]
fn send_drives_one_exchange() {
    let req = Request::get(&config(basic()), "/x").unwrap();
    let mut send = Send::new(req, vec![]);
    let first = send.resume(None);
    let text = written(&first);
    assert!(text.starts_with("GET /username/x HTTP/1.1\r\n"), "{text}");
    assert!(text.contains("Host: 127.0.0.1:8001\r\n"), "{text}");
    assert!(matches!(send.resume(None), SendResult::Io(StreamIo::Read)));
    let reply = b"HTTP/1.1 200 OK\r\nContent-Length: 5\r\n\r\nhello".to_vec();
    match send.resume(Some(reply)) {
        SendResult::Done(ok) => {
            assert_eq!(ok.body, "hello");
            assert_eq!(ok.response.status, 200);
            assert!(ok.keep_alive);
        }
        other => panic!("{other:?}"),
    }
}

#[test]
fn send_reports_error_status() {
    let req = Request::delete(&config(basic()), "/x").unwrap();
    let mut send = Send::new(req, vec![]);
    let _ = written(&send.resume(None));
    let _ = send.resume(None);
    let reply = b"HTTP/1.1 404 Not Found\r\nContent-Length: 4\r\n\r\ngone".to_vec();
    match send.resume(Some(reply)) {
        SendResult::Failed(SendError::Response(404, body)) => assert_eq!(body, "gone"),
        other => panic!("{other:?}"),
    }
}

#[test]
fn redirect_to_other_host_resets_once() {
    let cfg = config(basic());
    let req = Request::propfind(&cfg, "/").unwrap();
    let mut follow = FollowRedirects::new(req, b"<x/>".to_vec());
    assert!(matches!(follow.resume(None), FollowRedirectsResult::Io(StreamIo::Write(_))));
    assert!(matches!(follow.resume(None), FollowRedirectsResult::Io(StreamIo::Read)));
    let reply = b"HTTP/1.1 301 Moved Permanently\r\nLocation: https://other-host/dav/\r\nContent-Length: 0\r\n\r\n".to_vec();
    match follow.resume(Some(reply)) {
        FollowRedirectsResult::Reset(u) => {
            assert_eq!(u.as_string(), "https://other-host/dav/");
        }
        other => panic!("{other:?}"),
    }
    let text = match follow.resume(None) {
        FollowRedirectsResult::Io(StreamIo::Write(b)) => String::from_utf8(b).unwrap(),
        other => panic!("{other:?}"),
    };
    assert!(text.starts_with("PROPFIND /dav/ HTTP/1.1\r\n"), "{text}");
    assert!(text.contains("Host: other-host\r\n"), "{text}");
    assert!(matches!(follow.resume(None), FollowRedirectsResult::Io(StreamIo::Read)));
    let reply = b"HTTP/1.1 207 Multi-Status\r\nContent-Length: 4\r\n\r\n<a/>".to_vec();
    match follow.resume(Some(reply)) {
        FollowRedirectsResult::Done(ok) => {
            assert_eq!(ok.body, "<a/>");
            assert_eq!(ok.request.uri.host.as_deref(), Some("other-host"));
        }
        other => panic!("{other:?}"),
    }
}

#[test]
fn redirect_on_same_origin_stays_on_connection() {
    let cfg = config(basic());
    let req = Request::propfind(&cfg, "/").unwrap();
    let mut follow = FollowRedirects::new(req, vec![]);
    let _ = follow.resume(None);
    let _ = follow.resume(None);
    let reply = b"HTTP/1.1 301 Moved Permanently\r\nLocation: /elsewhere/\r\nContent-Length: 0\r\n\r\n".to_vec();
    match follow.resume(Some(reply)) {
        FollowRedirectsResult::Io(StreamIo::Write(b)) => {
            let text = String::from_utf8(b).unwrap();
            assert!(text.starts_with("PROPFIND /elsewhere/ HTTP/1.1\r\n"), "{text}");
        }
        other => panic!("{other:?}"),
    }
}

const ICAL: &str = "BEGIN:VCALENDAR\r\nBEGIN:VEVENT\r\nDTSTART:19970714T170000Z\r\nSUMMARY:Test\r\nEND:VEVENT\r\nEND:VCALENDAR\r\n";

#[test]
fn read_item_parses_body() {
    let cfg = config(basic());
    let mut read = ReadCalendarItem::new(&cfg, "work", "abc").unwrap();
    let text = match read.resume(None) {
        SendResult::Io(StreamIo::Write(b)) => String::from_utf8(b).unwrap(),
        other => panic!("{other:?}"),
    };
    assert!(text.starts_with("GET /username/work/abc.ics HTTP/1.1\r\n"), "{text}");
    let _ = read.resume(None);
    let reply = format!("HTTP/1.1 200 OK\r\nContent-Length: {}\r\n\r\n{ICAL}", ICAL.len());
    match read.resume(Some(reply.into_bytes())) {
        SendResult::Done(ok) => {
            assert_eq!(ok.body.id, "abc");
            assert_eq!(ok.body.calendar_id, "work");
            assert_eq!(ok.body.to_string(), ICAL);
        }
        other => panic!("{other:?}"),
    }
}

#[test]
fn rebase_keeps_authority_or_sets_path() {
    let current = uri("https://h:8443/.well-known/caldav");
    let found = uri("/principals/me/");
    let next = rebase(current, found).unwrap();
    assert_eq!(next.as_string(), "https://h:8443/principals/me/");
    let elsewhere = uri("https://other/dav/");
    let next = rebase(uri("https://h/x"), elsewhere).unwrap();
    assert_eq!(next.as_string(), "https://other/dav/");
}

#[test]
fn item_deletion_report_presence() {
    assert!(!DeleteCalendarItem::has_report(""));
    assert!(!DeleteCalendarItem::has_report(" \r\n"));
    assert!(DeleteCalendarItem::has_report("<multistatus/>"));
}

#[test]
fn list_calendars_lists_each_calendar_once() {
    let body = Multistatus {
        responses: Some(vec![
            calendar_response("/dav/home/work/", true, Some("Work")),
            calendar_response("/dav/home/work/", true, Some("Work")),
        ]),
    };
    assert_eq!(ListCalendars::calendars(&body).len(), 1);
}

#[test]
fn request_debug_leaves_out_credentials() {
    let req = Request::get(&config(basic()), "/x").unwrap();
    let shown = format!("{req:?}");
    assert!(!shown.contains("dXNlcm5hbWU6cGFzc3dvcmQ="), "{shown}");
    assert!(shown.contains("Get"), "{shown}");
    let cfg = config(CaldavAuth::Bearer { token: Secret::new("tok-secret-value".to_string()) });
    let send = Send::new(Request::get(&cfg, "/x").unwrap(), vec![]);
    let shown = format!("{send:?}");
    assert!(!shown.contains("tok-secret-value"), "{shown}");
}
