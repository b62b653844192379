use std::collections::{BTreeMap, BTreeSet, HashSet};

use io_calendar::calendar::Calendar;
use io_calendar::item::CalendarItem;
use io_calendar::vdir::coroutines::{
    CreateCalendar, CreateCalendarItem, DeleteCalendar, DeleteCalendarItem, ListCalendarItems,
    ListCalendars, ReadCalendarItem, UpdateCalendar, UpdateCalendarItem, VdirResult,
};
use io_vdir::coroutine::{VdirReply, VdirYield};
use io_vdir::path::VdirPath;

/// A filesystem held in memory: directories and files by path.
#[derive(Default)]
struct MemFs {
    dirs: BTreeSet<String>,
    files: BTreeMap<String, Vec<u8>>,
}

#[derive(Debug, PartialEq)]
enum FsError {
    AlreadyExists,
    NotFound,
}

impl MemFs {
    fn with_root(root: &str) -> Self {
        let mut fs = MemFs::default();
        fs.dirs.insert(root.to_string());
        fs
    }

    fn children(&self, dir: &str) -> BTreeSet<VdirPath> {
        let prefix = format!("{dir}/");
        let direct = |p: &String| p.starts_with(&prefix) && !p[prefix.len()..].contains('/');
        self.dirs
            .iter()
            .filter(|p| direct(p))
            .chain(self.files.keys().filter(|p| direct(p)))
            .map(|p| VdirPath::new(p.clone()))
            .collect()
    }

    fn handle(&mut self, io: VdirYield) -> Result<VdirReply, FsError> {
        Ok(match io {
            VdirYield::WantsRandom { len } => VdirReply::Random((0..len).map(|i| i as u8).collect()),
            VdirYield::WantsFileExists(ps) => VdirReply::FileExists(
                ps.into_iter().map(|p| { let e = self.files.contains_key(p.as_str()); (p, e) }).collect(),
            ),
            VdirYield::WantsDirExists(ps) => VdirReply::DirExists(
                ps.into_iter().map(|p| { let e = self.dirs.contains(p.as_str()); (p, e) }).collect(),
            ),
            VdirYield::WantsDirRead(ps) => {
                let mut out = BTreeMap::new();
                for p in ps {
                    if !self.dirs.contains(p.as_str()) {
                        return Err(FsError::NotFound);
                    }
                    let c = self.children(p.as_str());
                    out.insert(p, c);
                }
                VdirReply::DirRead(out)
            }
            VdirYield::WantsFileRead(ps) => {
                let mut out = BTreeMap::new();
                for p in ps {
                    let bytes = self.files.get(p.as_str()).cloned().ok_or(FsError::NotFound)?;
                    out.insert(p, bytes);
                }
                VdirReply::FileRead(out)
            }
            VdirYield::WantsFileCreate(files) => {
                for (p, bytes) in files {
                    self.files.insert(p.into_string(), bytes);
                }
                VdirReply::FileCreate
            }
            VdirYield::WantsDirCreate(ps) => {
                for p in ps {
                    if !self.dirs.insert(p.into_string()) {
                        return Err(FsError::AlreadyExists);
                    }
                }
                VdirReply::DirCreate
            }
            VdirYield::WantsDirRemove(ps) => {
                for p in ps {
                    let prefix = format!("{}/", p.as_str());
                    self.dirs.retain(|d| d != p.as_str() && !d.starts_with(&prefix));
                    self.files.retain(|f, _| !f.starts_with(&prefix));
                }
                VdirReply::DirRemove
            }
            VdirYield::WantsFileRemove(ps) => {
                for p in ps {
                    self.files.remove(p.as_str());
                }
                VdirReply::FileRemove
            }
            VdirYield::WantsRename(pairs) => {
                for (from, to) in pairs {
                    let bytes = self.files.remove(from.as_str()).ok_or(FsError::NotFound)?;
                    self.files.insert(to.into_string(), bytes);
                }
                VdirReply::Rename
            }
            VdirYield::WantsCopy(pairs) => {
                for (from, to) in pairs {
                    let bytes = self.files.get(from.as_str()).cloned().ok_or(FsError::NotFound)?;
                    self.files.insert(to.into_string(), bytes);
                }
                VdirReply::Copy
            }
        })
    }

    fn run<T, E: std::fmt::Display>(&mut self, mut resume: impl FnMut(Option<VdirReply>) -> VdirResult<T, E>) -> Result<T, FsError> {
        let mut arg = None;
        loop {
            match resume(arg.take()) {
                VdirResult::Done(out) => return Ok(out),
                VdirResult::Failed(err) => panic!("{err}"),
                VdirResult::Io(io) => arg = Some(self.handle(io)?),
            }
        }
    }
}

const ROOT: &str = "/vdir";
const ICAL: &str = "BEGIN:VCALENDAR\r\nBEGIN:VEVENT\r\nDTSTART:19970714T170000Z\r\nSUMMARY:Test\r\nEND:VEVENT\r\nEND:VCALENDAR\r\n";

fn list(fs: &mut MemFs) -> Vec<Calendar> {
    let mut sm = ListCalendars::new(ROOT);
    fs.run(|arg| sm.resume(arg)).unwrap()
}

#[test]
fn vdir_duplicate_create_fails_in_driver() {
    let mut fs = MemFs::with_root(ROOT);
    let calendar = Calendar::new();
    let mut create = CreateCalendar::new(ROOT, calendar.clone());
    fs.run(|arg| create.resume(arg)).unwrap();
    let mut again = CreateCalendar::new(ROOT, calendar.clone());
    assert_eq!(fs.run(|arg| again.resume(arg)), Err(FsError::AlreadyExists));
    assert_eq!(list(&mut fs), vec![calendar]);
}

const ICAL2: &str = "BEGIN:VCALENDAR\r\nBEGIN:VEVENT\r\nDTSTART:19970714T170000Z\r\nSUMMARY:Test2\r\nEND:VEVENT\r\nEND:VCALENDAR\r\n";

fn list_set(fs: &mut MemFs, root: &str) -> HashSet<Calendar> {
    let mut sm = ListCalendars::new(root);
    fs.run(|arg| sm.resume(arg)).unwrap().into_iter().collect()
}

fn list_items(fs: &mut MemFs, root: &str, calendar_id: &str) -> Vec<CalendarItem> {
    let mut sm = ListCalendarItems::new(root, calendar_id);
    fs.run(|arg| sm.resume(arg)).unwrap()
}

#[test]
fn std_vdir() {
    let root = "/tmp/test-vdir-std";
    let mut fs = MemFs::with_root(root);

    // should list empty calendars
    assert!(list_set(&mut fs, root).is_empty());

    // should create calendar without metadata
    let mut calendar = Calendar::new();
    let mut create = CreateCalendar::new(root, calendar.clone());
    fs.run(|arg| create.resume(arg)).unwrap();
    let expected_calendars: HashSet<Calendar> = HashSet::from_iter([calendar.clone()]);
    assert_eq!(list_set(&mut fs, root), expected_calendars);

    // should not re-create existing calendar
    let mut create = CreateCalendar::new(root, calendar.clone());
    assert_eq!(fs.run(|arg| create.resume(arg)), Err(FsError::AlreadyExists));

    // should update calendar with metadata
    calendar.display_name = Some("Custom calendar name".into());
    calendar.description = Some("This is a description.".into());
    calendar.color = Some("#000000".into());
    let mut update = UpdateCalendar::new(root, calendar.clone());
    fs.run(|arg| update.resume(arg)).unwrap();
    let expected_calendars: HashSet<Calendar> = HashSet::from_iter([calendar.clone()]);
    assert_eq!(list_set(&mut fs, root), expected_calendars);

    // should create calendar item
    let mut item = CalendarItem {
        id: CalendarItem::new_uuid(),
        calendar_id: calendar.id.clone(),
        ical: CalendarItem::parse(ICAL).unwrap(),
    };
    let mut create = CreateCalendarItem::new(root, item.clone());
    fs.run(|arg| create.resume(arg)).unwrap();
    let items = list_items(&mut fs, root, &calendar.id);
    assert_eq!(items.len(), 1);
    assert_eq!(items[0].to_string(), ICAL);

    // should update calendar item
    item.ical = CalendarItem::parse(ICAL2).unwrap();
    let mut update = UpdateCalendarItem::new(root, item);
    fs.run(|arg| update.resume(arg)).unwrap();
    let items = list_items(&mut fs, root, &calendar.id);
    assert_eq!(items.len(), 1);
    let first_item = items.into_iter().next().unwrap();
    assert_eq!(first_item.to_string(), ICAL2);

    // should read calendar item
    let mut read = ReadCalendarItem::new(root, &calendar.id, &first_item.id);
    let read_back = fs.run(|arg| read.resume(arg)).unwrap().unwrap();
    assert_eq!(read_back, first_item);

    // should delete calendar item
    let mut delete = DeleteCalendarItem::new(root, &calendar.id, &first_item.id);
    fs.run(|arg| delete.resume(arg)).unwrap();
    assert_eq!(list_items(&mut fs, root, &calendar.id).into_iter().count(), 0);

    // should delete calendar
    let mut delete = DeleteCalendar::new(root, &calendar.id);
    fs.run(|arg| delete.resume(arg)).unwrap();
    assert!(list_set(&mut fs, root).is_empty());
}
