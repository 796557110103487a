//! The entry and cursor types, and how a new entry is made.

use vstd::prelude::*;

verus! {

/// Resume point of a descending, user-scoped scan: the key of the last entry
/// that the previous page returned.
#[derive(Debug, Clone, PartialEq, Eq)]
pub struct LastEvaluatedKey {
    pub id: String,
    pub user_id: String,
    pub last_modified: u64,
}

impl LastEvaluatedKey {
    pub fn new(id: &str, user_id: &str, last_modified: &u64) -> (r: Self)
        ensures
            r.id@ == id@,
            r.user_id@ == user_id@,
            r.last_modified == *last_modified,
    {
        LastEvaluatedKey {
            id: id.to_owned(),
            user_id: user_id.to_owned(),
            last_modified: *last_modified,
        }
    }
}

/// One entry of the table: `id` is its primary key, `user_id` the partition
/// key of the listing index and `last_modified` (unix seconds) its sort key.
#[derive(Debug, Clone)]
pub struct SPATableEntry {
    pub id: String,
    pub user_id: String,
    pub last_modified: u64,
    pub title: String,
    pub description: String,
}

/// The fields of an entry as plain values.
pub struct EntryView {
    pub id: Seq<char>,
    pub user_id: Seq<char>,
    pub last_modified: u64,
    pub title: Seq<char>,
    pub description: Seq<char>,
}

impl View for SPATableEntry {
    type V = EntryView;

    open spec fn view(&self) -> EntryView {
        EntryView {
            id: self.id@,
            user_id: self.user_id@,
            last_modified: self.last_modified,
            title: self.title@,
            description: self.description@,
        }
    }
}

/// The timestamp that a clock reading gives: the reading itself, or
/// `fallback` where the clock could not be read.
pub open spec fn stamp(clock: Option<u64>, fallback: u64) -> u64 {
    match clock {
        Some(t) => t,
        None => fallback,
    }
}

/// The entry that creation builds from a generated id and a clock reading.
pub open spec fn created(
    id: Seq<char>,
    user_id: Seq<char>,
    title: Seq<char>,
    description: Seq<char>,
    clock: Option<u64>,
) -> EntryView {
    EntryView { id, user_id, last_modified: stamp(clock, 0), title, description }
}

/// The position that an entry holds in its user's scan, as a cursor's
/// fields: id, user id and timestamp.
pub open spec fn key_of(e: EntryView) -> (Seq<char>, Seq<char>, u64) {
    (e.id, e.user_id, e.last_modified)
}

/// A cursor's fields.
pub open spec fn cursor_view(c: LastEvaluatedKey) -> (Seq<char>, Seq<char>, u64) {
    (c.id@, c.user_id@, c.last_modified)
}

/// Relies on uuid's `Uuid::new_v4` and its `Display`, which writes the
/// hyphenated form: 32 hex digits and four hyphens.
#[verifier::external_body]
fn fresh_id() -> (r: String)
    ensures
        r@.len() == 36,
{
    uuid::Uuid::new_v4().to_string()
}

/// Relies on `SystemTime::now` and `SystemTime::duration_since`: whole
/// seconds since the unix epoch, or `None` where the clock reads earlier.
#[verifier::external_body]
pub(crate) fn clock_secs() -> (r: Option<u64>)
{
    std::time::SystemTime::now().duration_since(std::time::UNIX_EPOCH).ok().map(|d| d.as_secs())
}

impl SPATableEntry {
    /// A new entry with a freshly generated id, stamped with the current time
    /// (or 0 where the clock cannot be read).
    pub fn new(user_id: &str, title: &str, description: &str) -> (r: Self)
        ensures
            r.id@.len() == 36,
            r.user_id@ == user_id@,
            r.title@ == title@,
            r.description@ == description@,
    {
        let id = fresh_id();
        let clock = clock_secs();
        Self::from_parts(id, user_id, title, description, clock)
    }

    /// The entry that `new` builds once the id has been generated and the
    /// clock read.
    pub fn from_parts(
        id: String,
        user_id: &str,
        title: &str,
        description: &str,
        clock: Option<u64>,
    ) -> (r: Self)
        ensures
            r@ == created(id@, user_id@, title@, description@, clock),
    {
        let last_modified: u64 = match clock {
            Some(t) => t,
            None => 0,
        };
        SPATableEntry {
            id,
            user_id: user_id.to_owned(),
            last_modified,
            title: title.to_owned(),
            description: description.to_owned(),
        }
    }
}

} // verus!
