//! Identifiers read out of hrefs, and the paths built from them.
use vstd::prelude::*;

use crate::text::{
    last_path_segment, last_segment, trim_end_char, trim_end_matches_char, trim_end_matches_str,
    trim_end_seq,
};

verus! {

/// The collection id of an href: its last segment once trailing `/`
/// are trimmed.
pub open spec fn collection_id_of(href: Seq<char>) -> Seq<char> {
    last_segment(trim_end_char(href, '/'))
}

/// The item id of an href: the collection id without its `.ics` suffix.
pub open spec fn item_id_of(href: Seq<char>) -> Seq<char> {
    trim_end_seq(collection_id_of(href), ".ics"@)
}

/// The path of an item: `/<calendar_id>/<item_id>.ics`.
pub open spec fn item_path_of(calendar_id: Seq<char>, item_id: Seq<char>) -> Seq<char> {
    "/"@ + calendar_id + "/"@ + item_id + ".ics"@
}

pub fn collection_id(href: &str) -> (r: String)
    ensures
        r@ == collection_id_of(href@),
{
    String::from_str(last_path_segment(trim_end_matches_char(href, '/')))
}

pub fn item_id(href: &str) -> (r: String)
    ensures
        r@ == item_id_of(href@),
{
    let id = collection_id(href);
    proof {
        reveal_strlit(".ics");
    }
    String::from_str(trim_end_matches_str(id.as_str(), ".ics"))
}

pub fn item_path(calendar_id: &str, item_id: &str) -> (r: String)
    ensures
        r@ == item_path_of(calendar_id@, item_id@),
{
    let mut p = String::from_str("/");
    p.append(calendar_id);
    p.append("/");
    p.append(item_id);
    p.append(".ics");
    p
}

} // verus!
