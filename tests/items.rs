use std::collections::HashSet;

use io_calendar::calendar::Calendar;
use io_calendar::item::{CalendarItem, ParseCalendarItemError};
use io_calendar::vdir::{calendar_at, calendar_dir, item_file, item_ids};

const ICAL: &str = "BEGIN:VCALENDAR\r\nBEGIN:VEVENT\r\nDTSTART:19970714T170000Z\r\nSUMMARY:Test\r\nEND:VEVENT\r\nEND:VCALENDAR\r\n";

#[test]
fn item_serialization_round_trips() {
    let ical = CalendarItem::parse(ICAL).unwrap();
    let item = CalendarItem { id: CalendarItem::new_uuid(), calendar_id: "c".to_string(), ical };
    assert_eq!(item.to_string(), ICAL);
}

#[test]
fn vcard_is_not_a_calendar() {
    let vcard = "BEGIN:VCARD\r\nVERSION:4.0\r\nFN:Jane\r\nEND:VCARD\r\n";
    assert!(matches!(CalendarItem::parse(vcard), Err(ParseCalendarItemError::InvalidFormat)));
}

#[test]
fn items_are_equal_by_ids() {
    let a = CalendarItem { id: "i".into(), calendar_id: "c".into(), ical: CalendarItem::parse(ICAL).unwrap() };
    let other = ICAL.replace("SUMMARY:Test", "SUMMARY:Other");
    let b = CalendarItem { id: "i".into(), calendar_id: "c".into(), ical: CalendarItem::parse(&other).unwrap() };
    let c = CalendarItem { id: "j".into(), calendar_id: "c".into(), ical: CalendarItem::parse(ICAL).unwrap() };
    assert_eq!(a, b);
    assert_ne!(a, c);
    let set: HashSet<CalendarItem> = [a, b, c].into_iter().collect();
    assert_eq!(set.len(), 2);
}

#[test]
fn new_calendar_has_fresh_id_and_no_metadata() {
    let a = Calendar::new();
    let b = Calendar::new();
    assert_ne!(a.id, b.id);
    assert_eq!(a.id.len(), 36);
    assert_eq!((a.display_name, a.description, a.color), (None, None, None));
}

#[test]
fn vdir_layout_round_trip() {
    let cal = Calendar::new();
    let dir = calendar_dir("/tmp/vdir/", &cal.id);
    assert_eq!(dir, format!("/tmp/vdir/{}", cal.id));
    let listed = calendar_at(&dir, None, None, None);
    assert_eq!(listed, cal);
    let file = item_file("/tmp/vdir", &cal.id, "abc");
    assert_eq!(file, format!("/tmp/vdir/{}/abc.ics", cal.id));
    assert_eq!(item_ids(&file), (cal.id.clone(), "abc".to_string()));
}
