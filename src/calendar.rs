//! Calendars: collections identified by their id, with optional metadata.
use vstd::prelude::*;

verus! {

/// A calendar collection. Equality and hashing cover all four fields.
#[derive(Clone, Debug, Eq, Hash, PartialEq)]
pub struct Calendar {
    /// The final non-empty segment of the collection URI (CalDAV) or
    /// the directory name (vdir).
    pub id: String,
    /// The name of the collection, shown in user interfaces.
    pub display_name: Option<String>,
    /// The description of the collection.
    pub description: Option<String>,
    /// The color of the collection, `#RRGGBB`.
    pub color: Option<String>,
}

impl Calendar {
    /// A calendar with a fresh random (version 4) UUID as id and no metadata.
    pub fn new() -> (r: Calendar)
        ensures
            r.display_name is None,
            r.description is None,
            r.color is None,
    {
        Calendar { id: new_uuid_text(), display_name: None, description: None, color: None }
    }
}

/// Relies on `uuid::Uuid::new_v4` and its `Display` for a fresh random
/// UUID in hyphenated form; nothing is promised of its value.
#[verifier::external_body]
pub(crate) fn new_uuid_text() -> String {
    uuid::Uuid::new_v4().to_string()
}

} // verus!
