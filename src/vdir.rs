//! The vdir layout: one directory per calendar under a root, holding
//! `displayname`, `description` and `color` files and one `<id>.ics`
//! file per item. These are the paths and ids the filesystem side uses.
use vstd::prelude::*;

pub mod coroutines;

use crate::caldav::ids::{collection_id, collection_id_of, item_id, item_id_of};
use crate::calendar::Calendar;
use crate::text::{last_index_of, trim_end_char, trim_end_matches_char, trim_end_seq};

verus! {

/// Where the calendars live.
#[derive(Clone, Debug)]
pub struct VdirConfig {
    pub root: String,
}

/// The directory of calendar `id` under `root`.
pub open spec fn calendar_dir_of(root: Seq<char>, id: Seq<char>) -> Seq<char> {
    trim_end_char(root, '/') + "/"@ + id
}

/// The file of item `id` of calendar `calendar_id` under `root`.
pub open spec fn item_file_of(root: Seq<char>, calendar_id: Seq<char>, id: Seq<char>) -> Seq<char> {
    calendar_dir_of(root, calendar_id) + "/"@ + id + ".ics"@
}

/// `path` without its last segment (trailing `/` trimmed first).
pub open spec fn parent_of(path: Seq<char>) -> Seq<char> {
    let t = trim_end_char(path, '/');
    if last_index_of(t, '/') < 0 {
        Seq::empty()
    } else {
        t.subrange(0, last_index_of(t, '/'))
    }
}

/// A plain name: not empty, no `/`.
pub open spec fn is_plain_name(s: Seq<char>) -> bool {
    s.len() > 0 && forall|i: int| 0 <= i < s.len() ==> s[i] != '/'
}

pub fn calendar_dir(root: &str, id: &str) -> (r: String)
    ensures
        r@ == calendar_dir_of(root@, id@),
{
    let mut p = String::from_str(trim_end_matches_char(root, '/'));
    p.append("/");
    p.append(id);
    p
}

pub fn item_file(root: &str, calendar_id: &str, id: &str) -> (r: String)
    ensures
        r@ == item_file_of(root@, calendar_id@, id@),
{
    let mut p = calendar_dir(root, calendar_id);
    p.append("/");
    p.append(id);
    p.append(".ics");
    p
}

/// The calendar stored in directory `path` with the given metadata:
/// its id is the directory name.
pub fn calendar_at(
    path: &str,
    display_name: Option<String>,
    description: Option<String>,
    color: Option<String>,
) -> (r: Calendar)
    ensures
        r.id@ == collection_id_of(path@),
        r.display_name == display_name,
        r.description == description,
        r.color == color,
{
    Calendar { id: collection_id(path), display_name, description, color }
}

/// The calendar id and item id of the item file at `path`: the name of
/// its directory, and its name without `.ics`.
pub fn item_ids(path: &str) -> (r: (String, String))
    ensures
        r.0@ == collection_id_of(parent_of(path@)),
        r.1@ == item_id_of(path@),
{
    let t = trim_end_matches_char(path, '/');
    let parent = match crate::text::find_last_char(t, '/') {
        Some(i) => t.substring_char(0, i),
        None => "",
    };
    proof {
        reveal_strlit("");
    }
    (collection_id(parent), item_id(path))
}

proof fn lemma_trim_end_no_slash(s: Seq<char>)
    requires
        s.len() > 0,
        s.last() != '/',
    ensures
        trim_end_char(s, '/') == s,
{
}

proof fn lemma_last_index_after_slash(a: Seq<char>, id: Seq<char>)
    requires
        forall|i: int| 0 <= i < id.len() ==> id[i] != '/',
    ensures
        last_index_of(a + "/"@ + id, '/') == a.len(),
    decreases id.len(),
{
    let s = a + "/"@ + id;
    reveal_strlit("/");
    if id.len() == 0 {
        assert(s.last() == '/');
    } else {
        assert(s.drop_last() =~= a + "/"@ + id.drop_last());
        assert(s.last() == id.last());
        lemma_last_index_after_slash(a, id.drop_last());
    }
}

proof fn lemma_segment_after_slash(a: Seq<char>, id: Seq<char>)
    requires
        is_plain_name(id),
    ensures
        collection_id_of(a + "/"@ + id) == id,
        parent_of(a + "/"@ + id) == a,
{
    let s = a + "/"@ + id;
    reveal_strlit("/");
    assert(s.last() == id.last());
    lemma_trim_end_no_slash(s);
    lemma_last_index_after_slash(a, id);
    assert(s.subrange(a.len() as int + 1, s.len() as int) =~= id);
    assert(s.subrange(0, a.len() as int) =~= a);
}

/// What the layout stores is what it reads back: the directory of
/// calendar `id` lists as calendar `id`, and the file of item `id` of
/// calendar `calendar_id` reads as that pair of ids, for plain names
/// (and an item id that does not itself end in `.ics`).
pub proof fn lemma_layout_round_trip(root: Seq<char>, calendar_id: Seq<char>, id: Seq<char>)
    requires
        is_plain_name(calendar_id),
        is_plain_name(id),
        trim_end_seq(id, ".ics"@) == id,
    ensures
        collection_id_of(calendar_dir_of(root, calendar_id)) == calendar_id,
        collection_id_of(parent_of(item_file_of(root, calendar_id, id))) == calendar_id,
        item_id_of(item_file_of(root, calendar_id, id)) == id,
{
    reveal_strlit("/");
    reveal_strlit(".ics");
    let dir = calendar_dir_of(root, calendar_id);
    assert(dir =~= trim_end_char(root, '/') + "/"@ + calendar_id);
    lemma_segment_after_slash(trim_end_char(root, '/'), calendar_id);
    let name = id + ".ics"@;
    assert forall|i: int| 0 <= i < name.len() implies name[i] != '/' by {
        if i >= id.len() {
            assert(name[i] == ".ics"@[i - id.len()]);
        }
    }
    let file = item_file_of(root, calendar_id, id);
    assert(file =~= dir + "/"@ + name);
    lemma_segment_after_slash(dir, name);
    lemma_segment_after_slash(trim_end_char(root, '/'), calendar_id);
    assert(name.subrange(name.len() - 4, name.len() as int) =~= ".ics"@);
    assert(name.subrange(0, name.len() - 4) =~= id);
}

} // verus!
