//! The vdir workflows as resumable state machines: each drives one
//! `io-vdir` coroutine, aimed at the paths of the vdir layout, and yields
//! the filesystem I/O it asks for. What comes back is mapped to calendars
//! and items here.
use vstd::prelude::*;

use io_vdir::collection::create::{VdirCollectionCreate, VdirCollectionCreateOptions};
use io_vdir::collection::delete::{VdirCollectionDelete, VdirCollectionDeleteOptions};
use io_vdir::collection::list::{VdirCollectionList, VdirCollectionListOptions};
use io_vdir::collection::update::{VdirCollectionUpdate, VdirCollectionUpdateOptions};
use io_vdir::collection::VdirCollection;
use io_vdir::coroutine::{VdirCoroutine, VdirCoroutineState, VdirReply, VdirYield};
use io_vdir::item::delete::{VdirItemDelete, VdirItemDeleteOptions};
use io_vdir::item::get::{VdirItemGet, VdirItemGetOptions};
use io_vdir::item::list::{VdirItemList, VdirItemListOptions};
use io_vdir::item::store::{VdirItemStore, VdirItemStoreOptions};
use io_vdir::item::VdirItemKind;
use io_vdir::collection::create::VdirCollectionCreateError;
use io_vdir::collection::update::VdirCollectionUpdateError;
use io_vdir::collection::delete::VdirCollectionDeleteError;
use io_vdir::collection::list::VdirCollectionListError;
use io_vdir::item::list::VdirItemListError;
use io_vdir::item::store::VdirItemStoreError;
use io_vdir::item::get::VdirItemGetError;
use io_vdir::item::delete::VdirItemDeleteError;

use crate::caldav::ids::{collection_id_of, item_id_of};
use crate::caldav::send::{utf8_lossy, utf8_lossy_of};
use crate::caldav::uri::{copy_opt, opt_view};
use crate::calendar::Calendar;
use crate::item::{ical_parses, CalendarItem, ParseCalendarItemError};
use crate::vdir::{calendar_at, calendar_dir, calendar_dir_of, item_ids, parent_of};

verus! {

#[verifier::external_type_specification]
#[verifier::external_body]
pub struct ExVdirYield(io_vdir::coroutine::VdirYield);

#[verifier::external_type_specification]
#[verifier::external_body]
pub struct ExVdirReply(io_vdir::coroutine::VdirReply);

#[verifier::external_type_specification]
#[verifier::external_body]
pub struct ExVdirCollectionCreate(io_vdir::collection::create::VdirCollectionCreate);

#[verifier::external_type_specification]
#[verifier::external_body]
pub struct ExVdirCollectionUpdate(io_vdir::collection::update::VdirCollectionUpdate);

#[verifier::external_type_specification]
#[verifier::external_body]
pub struct ExVdirCollectionDelete(io_vdir::collection::delete::VdirCollectionDelete);

#[verifier::external_type_specification]
#[verifier::external_body]
pub struct ExVdirCollectionList(io_vdir::collection::list::VdirCollectionList);

#[verifier::external_type_specification]
#[verifier::external_body]
pub struct ExVdirItemList(io_vdir::item::list::VdirItemList);

#[verifier::external_type_specification]
#[verifier::external_body]
pub struct ExVdirItemStore(io_vdir::item::store::VdirItemStore);

#[verifier::external_type_specification]
#[verifier::external_body]
pub struct ExVdirItemGet(io_vdir::item::get::VdirItemGet);

#[verifier::external_type_specification]
#[verifier::external_body]
pub struct ExVdirItemDelete(io_vdir::item::delete::VdirItemDelete);

#[verifier::external_type_specification]
#[verifier::external_body]
pub struct ExVdirCollectionCreateError(io_vdir::collection::create::VdirCollectionCreateError);

#[verifier::external_type_specification]
#[verifier::external_body]
pub struct ExVdirCollectionUpdateError(io_vdir::collection::update::VdirCollectionUpdateError);

#[verifier::external_type_specification]
#[verifier::external_body]
pub struct ExVdirCollectionDeleteError(io_vdir::collection::delete::VdirCollectionDeleteError);

#[verifier::external_type_specification]
#[verifier::external_body]
pub struct ExVdirCollectionListError(io_vdir::collection::list::VdirCollectionListError);

#[verifier::external_type_specification]
#[verifier::external_body]
pub struct ExVdirItemListError(io_vdir::item::list::VdirItemListError);

#[verifier::external_type_specification]
#[verifier::external_body]
pub struct ExVdirItemStoreError(io_vdir::item::store::VdirItemStoreError);

#[verifier::external_type_specification]
#[verifier::external_body]
pub struct ExVdirItemGetError(io_vdir::item::get::VdirItemGetError);

#[verifier::external_type_specification]
#[verifier::external_body]
pub struct ExVdirItemDeleteError(io_vdir::item::delete::VdirItemDeleteError);

/// What a vdir workflow's `resume` returns.
#[derive(Debug)]
pub enum VdirResult<T, E> {
    /// The workflow finished.
    Done(T),
    /// The coroutine failed with this error.
    Failed(E),
    /// The workflow wants filesystem I/O, answered on the next `resume`.
    Io(VdirYield),
}

/// Why creating a calendar failed.
pub type CreateCalendarError = VdirCollectionCreateError;
/// What `CreateCalendar::resume` returns.
pub type CreateCalendarResult = VdirResult<(), CreateCalendarError>;
/// Why updating a calendar failed.
pub type UpdateCalendarError = VdirCollectionUpdateError;
/// What `UpdateCalendar::resume` returns.
pub type UpdateCalendarResult = VdirResult<(), UpdateCalendarError>;
/// Why deleting a calendar failed.
pub type DeleteCalendarError = VdirCollectionDeleteError;
/// What `DeleteCalendar::resume` returns.
pub type DeleteCalendarResult = VdirResult<(), DeleteCalendarError>;
/// Why listing calendars failed.
pub type ListCalendarsError = VdirCollectionListError;
/// What `ListCalendars::resume` returns.
pub type ListCalendarsResult = VdirResult<Vec<Calendar>, ListCalendarsError>;
/// Why listing items failed.
pub type ListCalendarItemsError = VdirItemListError;
/// What `ListCalendarItems::resume` returns.
pub type ListCalendarItemsResult = VdirResult<Vec<CalendarItem>, ListCalendarItemsError>;
/// Why storing an item failed.
pub type CreateCalendarItemError = VdirItemStoreError;
/// What `CreateCalendarItem::resume` returns.
pub type CreateCalendarItemResult = VdirResult<(), CreateCalendarItemError>;
/// Why replacing an item failed.
pub type UpdateCalendarItemError = VdirItemStoreError;
/// What `UpdateCalendarItem::resume` returns.
pub type UpdateCalendarItemResult = VdirResult<(), UpdateCalendarItemError>;
/// What `ReadCalendarItem::resume` returns.
pub type ReadCalendarItemResult = VdirResult<Result<CalendarItem, ReadItemError>, VdirItemGetError>;
/// Why deleting an item failed.
pub type DeleteCalendarItemError = VdirItemDeleteError;
/// What `DeleteCalendarItem::resume` returns.
pub type DeleteCalendarItemResult = VdirResult<(), DeleteCalendarItemError>;

/// A collection as the coroutines hand it out: path, display name,
/// description, color.
pub type CollectionEntry = (String, Option<String>, Option<String>, Option<String>);

/// An item as the coroutines hand it out: path, whether it is an
/// iCalendar file, contents.
pub type ItemEntry = (String, bool, Vec<u8>);

/// Creates the directory of a calendar and its metadata files.
#[derive(Debug)]
pub struct CreateCalendar {
    path: String,
    metadata: (Option<String>, Option<String>, Option<String>),
    co: VdirCollectionCreate,
    done: bool,
}

impl CreateCalendar {
    /// The workflow has ended; `resume` may not be called any more.
    pub closed spec fn is_done(&self) -> bool {
        self.done
    }

    /// The directory the calendar goes to.
    pub closed spec fn path(&self) -> Seq<char> {
        self.path@
    }

    /// The display name, description and color handed to the coroutine.
    pub closed spec fn metadata(&self) -> (Option<Seq<char>>, Option<Seq<char>>, Option<Seq<char>>) {
        (opt_view(self.metadata.0), opt_view(self.metadata.1), opt_view(self.metadata.2))
    }

    pub fn new(root: &str, calendar: Calendar) -> (r: CreateCalendar)
        ensures
            !r.is_done(),
            r.path() == calendar_dir_of(root@, calendar.id@),
            r.metadata() == (
                opt_view(calendar.display_name),
                opt_view(calendar.description),
                opt_view(calendar.color),
            ),
    {
        let path = calendar_dir(root, calendar.id.as_str());
        let metadata = (
            copy_opt(&calendar.display_name),
            copy_opt(&calendar.description),
            copy_opt(&calendar.color),
        );
        let co = collection_create(
            path.clone(),
            calendar.display_name,
            calendar.description,
            calendar.color,
        );
        CreateCalendar { path, metadata, co, done: false }
    }

    pub fn resume(&mut self, arg: Option<VdirReply>) -> (r: VdirResult<(), VdirCollectionCreateError>)
        requires
            !old(self).is_done(),
        ensures
            r is Io <==> !final(self).is_done(),
            final(self).path() == old(self).path(),
    {
        let r = collection_create_resume(&mut self.co, arg);
        self.done = !matches!(r, VdirResult::Io(_));
        r
    }
}

/// Rewrites the metadata files of a calendar.
#[derive(Debug)]
pub struct UpdateCalendar {
    path: String,
    metadata: (Option<String>, Option<String>, Option<String>),
    co: VdirCollectionUpdate,
    done: bool,
}

impl UpdateCalendar {
    /// The workflow has ended; `resume` may not be called any more.
    pub closed spec fn is_done(&self) -> bool {
        self.done
    }

    pub closed spec fn path(&self) -> Seq<char> {
        self.path@
    }

    /// The display name, description and color handed to the coroutine.
    pub closed spec fn metadata(&self) -> (Option<Seq<char>>, Option<Seq<char>>, Option<Seq<char>>) {
        (opt_view(self.metadata.0), opt_view(self.metadata.1), opt_view(self.metadata.2))
    }

    pub fn new(root: &str, calendar: Calendar) -> (r: UpdateCalendar)
        ensures
            !r.is_done(),
            r.path() == calendar_dir_of(root@, calendar.id@),
            r.metadata() == (
                opt_view(calendar.display_name),
                opt_view(calendar.description),
                opt_view(calendar.color),
            ),
    {
        let path = calendar_dir(root, calendar.id.as_str());
        let metadata = (
            copy_opt(&calendar.display_name),
            copy_opt(&calendar.description),
            copy_opt(&calendar.color),
        );
        let co = collection_update(
            path.clone(),
            calendar.display_name,
            calendar.description,
            calendar.color,
        );
        UpdateCalendar { path, metadata, co, done: false }
    }

    pub fn resume(&mut self, arg: Option<VdirReply>) -> (r: VdirResult<(), VdirCollectionUpdateError>)
        requires
            !old(self).is_done(),
        ensures
            r is Io <==> !final(self).is_done(),
            final(self).path() == old(self).path(),
    {
        let r = collection_update_resume(&mut self.co, arg);
        self.done = !matches!(r, VdirResult::Io(_));
        r
    }
}

/// Removes the directory of a calendar and everything in it.
#[derive(Debug)]
pub struct DeleteCalendar {
    path: String,
    co: VdirCollectionDelete,
    done: bool,
}

impl DeleteCalendar {
    /// The workflow has ended; `resume` may not be called any more.
    pub closed spec fn is_done(&self) -> bool {
        self.done
    }

    pub closed spec fn path(&self) -> Seq<char> {
        self.path@
    }

    pub fn new(root: &str, id: &str) -> (r: DeleteCalendar)
        ensures
            !r.is_done(),
            r.path() == calendar_dir_of(root@, id@),
    {
        let path = calendar_dir(root, id);
        let co = collection_delete(path.clone());
        DeleteCalendar { path, co, done: false }
    }

    pub fn resume(&mut self, arg: Option<VdirReply>) -> (r: VdirResult<(), VdirCollectionDeleteError>)
        requires
            !old(self).is_done(),
        ensures
            r is Io <==> !final(self).is_done(),
            final(self).path() == old(self).path(),
    {
        let r = collection_delete_resume(&mut self.co, arg);
        self.done = !matches!(r, VdirResult::Io(_));
        r
    }
}

/// `r` holds, in order, the calendar each entry stands for: id from
/// its directory name, metadata as read.
pub open spec fn calendars_from(r: Seq<Calendar>, entries: Seq<CollectionEntry>) -> bool {
    &&& r.len() == entries.len()
    &&& forall|i: int|
        0 <= i < r.len() ==> {
            &&& (#[trigger] r[i]).id@ == collection_id_of(entries[i].0@)
            &&& r[i].display_name == entries[i].1
            &&& r[i].description == entries[i].2
            &&& r[i].color == entries[i].3
        }
}

/// The calendar each collection stands for: id from its directory name.
pub fn calendars_of(entries: Vec<CollectionEntry>) -> (r: Vec<Calendar>)
    ensures
        calendars_from(r@, entries@),
{
    let mut out: Vec<Calendar> = Vec::new();
    let n = entries.len();
    let mut i: usize = 0;
    while i < n
        invariant
            n == entries@.len(),
            i <= n,
            out@.len() == i,
            forall|k: int|
                0 <= k < i ==> {
                    &&& (#[trigger] out@[k]).id@ == collection_id_of(entries@[k].0@)
                    &&& out@[k].display_name == entries@[k].1
                    &&& out@[k].description == entries@[k].2
                    &&& out@[k].color == entries@[k].3
                },
        decreases n - i,
    {
        let e = &entries[i];
        let c = calendar_at(e.0.as_str(), e.1.clone(), e.2.clone(), e.3.clone());
        out.push(c);
        i = i + 1;
    }
    out
}

/// Lists the calendars under the root.
#[derive(Debug)]
pub struct ListCalendars {
    root: String,
    co: VdirCollectionList,
    done: bool,
}

impl ListCalendars {
    /// The workflow has ended; `resume` may not be called any more.
    pub closed spec fn is_done(&self) -> bool {
        self.done
    }

    /// The root handed to the coroutine.
    pub closed spec fn root(&self) -> Seq<char> {
        self.root@
    }

    pub fn new(root: &str) -> (r: ListCalendars)
        ensures
            !r.is_done(),
            r.root() == root@,
    {
        let root = String::from_str(root);
        let co = collection_list(root.clone());
        ListCalendars { root, co, done: false }
    }

    pub fn resume(&mut self, arg: Option<VdirReply>) -> (r: VdirResult<Vec<Calendar>, VdirCollectionListError>)
        requires
            !old(self).is_done(),
        ensures
            r is Io <==> !final(self).is_done(),
            r matches VdirResult::Done(cs) ==> exists|entries: Seq<CollectionEntry>|
                #[trigger] calendars_from(cs@, entries),
    {
        let ghost mut listed: Seq<CollectionEntry> = Seq::empty();
        let r = match collection_list_resume(&mut self.co, arg) {
            VdirResult::Done(entries) => {
                proof {
                    listed = entries@;
                }
                VdirResult::Done(calendars_of(entries))
            },
            VdirResult::Failed(e) => VdirResult::Failed(e),
            VdirResult::Io(io) => VdirResult::Io(io),
        };
        self.done = !matches!(r, VdirResult::Io(_));
        assert(r matches VdirResult::Done(cs) ==> calendars_from(cs@, listed));
        r
    }
}

/// The item an entry stands for: an iCalendar file whose contents
/// parse, its ids read from its path.
pub fn item_of_entry(entry: &ItemEntry) -> (r: Result<CalendarItem, ReadItemError>)
    ensures
        !entry.1 ==> (r matches Err(ReadItemError::InvalidCalendarItem(p)) && p@ == entry.0@),
        r is Ok <==> entry_yields_item(*entry),
        r is Ok ==> ids_of(r->Ok_0) == entry_ids(*entry),
{
    if !entry.1 {
        return Err(ReadItemError::InvalidCalendarItem(entry.0.clone()));
    }
    let text = utf8_lossy(entry.2.as_slice());
    match CalendarItem::parse(text.as_str()) {
        Ok(ical) => {
            let (calendar_id, id) = item_ids(entry.0.as_str());
            Ok(CalendarItem { id, calendar_id, ical })
        },
        Err(e) => Err(ReadItemError::ParseCalendarItem(e)),
    }
}

/// An entry gives an item: an iCalendar file whose contents parse.
pub open spec fn entry_yields_item(e: ItemEntry) -> bool {
    e.1 && ical_parses(utf8_lossy_of(e.2@))
}

/// The calendar id and item id that the path of an entry gives.
pub open spec fn entry_ids(e: ItemEntry) -> (Seq<char>, Seq<char>) {
    (collection_id_of(parent_of(e.0@)), item_id_of(e.0@))
}

/// The ids of the items the entries give, in order.
pub open spec fn listed_entry_ids(entries: Seq<ItemEntry>) -> Seq<(Seq<char>, Seq<char>)>
    decreases entries.len(),
{
    if entries.len() == 0 {
        Seq::empty()
    } else if entry_yields_item(entries.last()) {
        listed_entry_ids(entries.drop_last()).push(entry_ids(entries.last()))
    } else {
        listed_entry_ids(entries.drop_last())
    }
}

pub open spec fn ids_of(item: CalendarItem) -> (Seq<char>, Seq<char>) {
    (item.calendar_id@, item.id@)
}

/// The items of the iCalendar entries whose contents parse, in order.
pub fn items_of(entries: Vec<ItemEntry>) -> (r: Vec<CalendarItem>)
    ensures
        r@.map_values(|it: CalendarItem| ids_of(it)) == listed_entry_ids(entries@),
{
    let mut out: Vec<CalendarItem> = Vec::new();
    let n = entries.len();
    let mut i: usize = 0;
    while i < n
        invariant
            n == entries@.len(),
            i <= n,
            out@.map_values(|it: CalendarItem| ids_of(it)) == listed_entry_ids(
                entries@.subrange(0, i as int),
            ),
        decreases n - i,
    {
        let found = item_of_entry(&entries[i]);
        assert(entries@.subrange(0, i + 1).drop_last() =~= entries@.subrange(0, i as int));
        assert(entries@.subrange(0, i + 1).last() == entries@[i as int]);
        match found {
            Ok(item) => {
                out.push(item);
            },
            Err(_) => {},
        }
        assert(out@.map_values(|it: CalendarItem| ids_of(it)) =~= listed_entry_ids(
            entries@.subrange(0, i + 1),
        ));
        i = i + 1;
    }
    assert(entries@.subrange(0, n as int) =~= entries@);
    out
}

/// Lists the items of one calendar.
#[derive(Debug)]
pub struct ListCalendarItems {
    path: String,
    co: VdirItemList,
    done: bool,
}

impl ListCalendarItems {
    /// The workflow has ended; `resume` may not be called any more.
    pub closed spec fn is_done(&self) -> bool {
        self.done
    }

    pub closed spec fn path(&self) -> Seq<char> {
        self.path@
    }

    pub fn new(root: &str, calendar_id: &str) -> (r: ListCalendarItems)
        ensures
            !r.is_done(),
            r.path() == calendar_dir_of(root@, calendar_id@),
    {
        let path = calendar_dir(root, calendar_id);
        let co = item_list(path.clone());
        ListCalendarItems { path, co, done: false }
    }

    pub fn resume(&mut self, arg: Option<VdirReply>) -> (r: VdirResult<Vec<CalendarItem>, VdirItemListError>)
        requires
            !old(self).is_done(),
        ensures
            r is Io <==> !final(self).is_done(),
            final(self).path() == old(self).path(),
            r matches VdirResult::Done(items) ==> exists|entries: Seq<ItemEntry>|
                #[trigger] listed_entry_ids(entries) == items@.map_values(|it: CalendarItem| ids_of(it)),
    {
        let r = match item_list_resume(&mut self.co, arg) {
            VdirResult::Done(entries) => {
                let ghost listed = entries@;
                let items = items_of(entries);
                assert(items@.map_values(|it: CalendarItem| ids_of(it)) == listed_entry_ids(listed));
                VdirResult::Done(items)
            },
            VdirResult::Failed(e) => VdirResult::Failed(e),
            VdirResult::Io(io) => VdirResult::Io(io),
        };
        self.done = !matches!(r, VdirResult::Io(_));
        r
    }
}

/// Stores an item under its calendar, as a new file or over the file
/// of the item with the same id.
#[derive(Debug)]
pub struct StoreCalendarItem {
    path: String,
    id: String,
    co: VdirItemStore,
    done: bool,
}

impl StoreCalendarItem {
    /// The workflow has ended; `resume` may not be called any more.
    pub closed spec fn is_done(&self) -> bool {
        self.done
    }

    pub closed spec fn path(&self) -> Seq<char> {
        self.path@
    }

    /// The id of the item handed to the coroutine.
    pub closed spec fn item_id(&self) -> Seq<char> {
        self.id@
    }

    pub fn new(root: &str, item: CalendarItem) -> (r: StoreCalendarItem)
        ensures
            !r.is_done(),
            r.path() == calendar_dir_of(root@, item.calendar_id@),
            r.item_id() == item.id@,
    {
        let path = calendar_dir(root, item.calendar_id.as_str());
        let contents = item.to_string();
        let id = item.id.clone();
        let co = item_store(path.clone(), item.id, contents.as_str().as_bytes_vec());
        StoreCalendarItem { path, id, co, done: false }
    }

    pub fn resume(&mut self, arg: Option<VdirReply>) -> (r: VdirResult<(), VdirItemStoreError>)
        requires
            !old(self).is_done(),
        ensures
            r is Io <==> !final(self).is_done(),
            final(self).path() == old(self).path(),
    {
        let r = item_store_resume(&mut self.co, arg);
        self.done = !matches!(r, VdirResult::Io(_));
        r
    }
}

/// Creates an item.
pub type CreateCalendarItem = StoreCalendarItem;

/// Replaces an item.
pub type UpdateCalendarItem = StoreCalendarItem;

/// Why an item could not be read.
#[derive(Debug)]
pub enum ReadItemError {
    /// The file at this path is not an iCalendar item.
    InvalidCalendarItem(String),
    /// The contents are not iCalendar.
    ParseCalendarItem(ParseCalendarItemError),
}

/// Reads one item of one calendar.
#[derive(Debug)]
pub struct ReadCalendarItem {
    path: String,
    id: String,
    co: VdirItemGet,
    done: bool,
}

impl ReadCalendarItem {
    /// The workflow has ended; `resume` may not be called any more.
    pub closed spec fn is_done(&self) -> bool {
        self.done
    }

    pub closed spec fn path(&self) -> Seq<char> {
        self.path@
    }

    /// The id of the item handed to the coroutine.
    pub closed spec fn item_id(&self) -> Seq<char> {
        self.id@
    }

    pub fn new(root: &str, calendar_id: &str, id: &str) -> (r: ReadCalendarItem)
        ensures
            !r.is_done(),
            r.path() == calendar_dir_of(root@, calendar_id@),
            r.item_id() == id@,
    {
        let path = calendar_dir(root, calendar_id);
        let id = String::from_str(id);
        let co = item_get(path.clone(), id.clone());
        ReadCalendarItem { path, id, co, done: false }
    }

    pub fn resume(&mut self, arg: Option<VdirReply>) -> (r: VdirResult<Result<CalendarItem, ReadItemError>, VdirItemGetError>)
        requires
            !old(self).is_done(),
        ensures
            r is Io <==> !final(self).is_done(),
            final(self).path() == old(self).path(),
            r matches VdirResult::Done(Ok(item)) ==> exists|e: ItemEntry|
                entry_yields_item(e) && #[trigger] entry_ids(e) == ids_of(item),
    {
        let r = match item_get_resume(&mut self.co, arg) {
            VdirResult::Done(entry) => VdirResult::Done(item_of_entry(&entry)),
            VdirResult::Failed(e) => VdirResult::Failed(e),
            VdirResult::Io(io) => VdirResult::Io(io),
        };
        self.done = !matches!(r, VdirResult::Io(_));
        r
    }
}

/// Deletes one item of one calendar.
#[derive(Debug)]
pub struct DeleteCalendarItem {
    path: String,
    id: String,
    co: VdirItemDelete,
    done: bool,
}

impl DeleteCalendarItem {
    /// The workflow has ended; `resume` may not be called any more.
    pub closed spec fn is_done(&self) -> bool {
        self.done
    }

    pub closed spec fn path(&self) -> Seq<char> {
        self.path@
    }

    /// The id of the item handed to the coroutine.
    pub closed spec fn item_id(&self) -> Seq<char> {
        self.id@
    }

    pub fn new(root: &str, calendar_id: &str, id: &str) -> (r: DeleteCalendarItem)
        ensures
            !r.is_done(),
            r.path() == calendar_dir_of(root@, calendar_id@),
            r.item_id() == id@,
    {
        let path = calendar_dir(root, calendar_id);
        let id = String::from_str(id);
        let co = item_delete(path.clone(), id.clone());
        DeleteCalendarItem { path, id, co, done: false }
    }

    pub fn resume(&mut self, arg: Option<VdirReply>) -> (r: VdirResult<(), VdirItemDeleteError>)
        requires
            !old(self).is_done(),
        ensures
            r is Io <==> !final(self).is_done(),
            final(self).path() == old(self).path(),
    {
        let r = item_delete_resume(&mut self.co, arg);
        self.done = !matches!(r, VdirResult::Io(_));
        r
    }
}

/// Relies on `io_vdir::collection::create::VdirCollectionCreate::new`.
#[verifier::external_body]
fn collection_create(path: String, display_name: Option<String>, description: Option<String>, color: Option<String>) -> VdirCollectionCreate {
    let collection = VdirCollection { path: path.into(), display_name, description, color };
    VdirCollectionCreate::new(collection, VdirCollectionCreateOptions::default())
}

/// Relies on `io_vdir::collection::create::VdirCollectionCreate`'s `VdirCoroutine::resume` for one step; each state it
/// returns becomes the result of the same name, its error kept as it is.
#[verifier::external_body]
fn collection_create_resume(co: &mut VdirCollectionCreate, arg: Option<VdirReply>) -> VdirResult<(), VdirCollectionCreateError> {
    match co.resume(arg) {
        VdirCoroutineState::Yielded(io) => VdirResult::Io(io),
        VdirCoroutineState::Complete(Ok(out)) => VdirResult::Done(out),
        VdirCoroutineState::Complete(Err(err)) => VdirResult::Failed(err),
    }
}

/// Relies on `io_vdir::collection::update::VdirCollectionUpdate::new`.
#[verifier::external_body]
fn collection_update(path: String, display_name: Option<String>, description: Option<String>, color: Option<String>) -> VdirCollectionUpdate {
    let collection = VdirCollection { path: path.into(), display_name, description, color };
    VdirCollectionUpdate::new(collection, VdirCollectionUpdateOptions::default())
}

/// Relies on `io_vdir::collection::update::VdirCollectionUpdate`'s `VdirCoroutine::resume` for one step; each state it
/// returns becomes the result of the same name, its error kept as it is.
#[verifier::external_body]
fn collection_update_resume(co: &mut VdirCollectionUpdate, arg: Option<VdirReply>) -> VdirResult<(), VdirCollectionUpdateError> {
    match co.resume(arg) {
        VdirCoroutineState::Yielded(io) => VdirResult::Io(io),
        VdirCoroutineState::Complete(Ok(out)) => VdirResult::Done(out),
        VdirCoroutineState::Complete(Err(err)) => VdirResult::Failed(err),
    }
}

/// Relies on `io_vdir::collection::delete::VdirCollectionDelete::new`.
#[verifier::external_body]
fn collection_delete(path: String) -> VdirCollectionDelete {
    VdirCollectionDelete::new(path, VdirCollectionDeleteOptions::default())
}

/// Relies on `io_vdir::collection::delete::VdirCollectionDelete`'s `VdirCoroutine::resume` for one step; each state it
/// returns becomes the result of the same name, its error kept as it is.
#[verifier::external_body]
fn collection_delete_resume(co: &mut VdirCollectionDelete, arg: Option<VdirReply>) -> VdirResult<(), VdirCollectionDeleteError> {
    match co.resume(arg) {
        VdirCoroutineState::Yielded(io) => VdirResult::Io(io),
        VdirCoroutineState::Complete(Ok(out)) => VdirResult::Done(out),
        VdirCoroutineState::Complete(Err(err)) => VdirResult::Failed(err),
    }
}

/// Relies on `io_vdir::collection::list::VdirCollectionList::new`.
#[verifier::external_body]
fn collection_list(root: String) -> VdirCollectionList {
    VdirCollectionList::new(root, VdirCollectionListOptions::default())
}

/// Relies on `io_vdir::collection::list::VdirCollectionList`'s `VdirCoroutine::resume` for one step; each state it
/// returns becomes the result of the same name, its error kept as it is.
#[verifier::external_body]
fn collection_list_resume(co: &mut VdirCollectionList, arg: Option<VdirReply>) -> VdirResult<Vec<CollectionEntry>, VdirCollectionListError> {
    match co.resume(arg) {
        VdirCoroutineState::Yielded(io) => VdirResult::Io(io),
        VdirCoroutineState::Complete(Ok(out)) => VdirResult::Done(out.into_iter().map(|c| (c.path.into_string(), c.display_name, c.description, c.color)).collect()),
        VdirCoroutineState::Complete(Err(err)) => VdirResult::Failed(err),
    }
}

/// Relies on `io_vdir::item::list::VdirItemList::new`.
#[verifier::external_body]
fn item_list(path: String) -> VdirItemList {
    VdirItemList::new(path, VdirItemListOptions::default())
}

/// Relies on `io_vdir::item::list::VdirItemList`'s `VdirCoroutine::resume` for one step; each state it
/// returns becomes the result of the same name, its error kept as it is.
#[verifier::external_body]
fn item_list_resume(co: &mut VdirItemList, arg: Option<VdirReply>) -> VdirResult<Vec<ItemEntry>, VdirItemListError> {
    match co.resume(arg) {
        VdirCoroutineState::Yielded(io) => VdirResult::Io(io),
        VdirCoroutineState::Complete(Ok(out)) => VdirResult::Done(out.into_iter().map(|i| (i.path.into_string(), i.kind == VdirItemKind::Ical, i.contents)).collect()),
        VdirCoroutineState::Complete(Err(err)) => VdirResult::Failed(err),
    }
}

/// Relies on `io_vdir::item::store::VdirItemStore::new`, for an iCalendar item with that id.
#[verifier::external_body]
fn item_store(path: String, id: String, contents: Vec<u8>) -> VdirItemStore {
    VdirItemStore::new(path, Some(id), VdirItemKind::Ical, contents, VdirItemStoreOptions::default())
}

/// Relies on `io_vdir::item::store::VdirItemStore`'s `VdirCoroutine::resume` for one step; each state it
/// returns becomes the result of the same name, its error kept as it is.
#[verifier::external_body]
fn item_store_resume(co: &mut VdirItemStore, arg: Option<VdirReply>) -> VdirResult<(), VdirItemStoreError> {
    match co.resume(arg) {
        VdirCoroutineState::Yielded(io) => VdirResult::Io(io),
        VdirCoroutineState::Complete(Ok(out)) => VdirResult::Done({ let _ = out; }),
        VdirCoroutineState::Complete(Err(err)) => VdirResult::Failed(err),
    }
}

/// Relies on `io_vdir::item::get::VdirItemGet::new`.
#[verifier::external_body]
fn item_get(path: String, id: String) -> VdirItemGet {
    VdirItemGet::new(path, id, VdirItemGetOptions::default())
}

/// Relies on `io_vdir::item::get::VdirItemGet`'s `VdirCoroutine::resume` for one step; each state it
/// returns becomes the result of the same name, its error kept as it is.
#[verifier::external_body]
fn item_get_resume(co: &mut VdirItemGet, arg: Option<VdirReply>) -> VdirResult<ItemEntry, VdirItemGetError> {
    match co.resume(arg) {
        VdirCoroutineState::Yielded(io) => VdirResult::Io(io),
        VdirCoroutineState::Complete(Ok(out)) => VdirResult::Done((out.path.into_string(), out.kind == VdirItemKind::Ical, out.contents)),
        VdirCoroutineState::Complete(Err(err)) => VdirResult::Failed(err),
    }
}

/// Relies on `io_vdir::item::delete::VdirItemDelete::new`.
#[verifier::external_body]
fn item_delete(path: String, id: String) -> VdirItemDelete {
    VdirItemDelete::new(path, id, VdirItemDeleteOptions::default())
}

/// Relies on `io_vdir::item::delete::VdirItemDelete`'s `VdirCoroutine::resume` for one step; each state it
/// returns becomes the result of the same name, its error kept as it is.
#[verifier::external_body]
fn item_delete_resume(co: &mut VdirItemDelete, arg: Option<VdirReply>) -> VdirResult<(), VdirItemDeleteError> {
    match co.resume(arg) {
        VdirCoroutineState::Yielded(io) => VdirResult::Io(io),
        VdirCoroutineState::Complete(Ok(out)) => VdirResult::Done(out),
        VdirCoroutineState::Complete(Err(err)) => VdirResult::Failed(err),
    }
}

} // verus!
