//! The repository: the requests it makes of the table for each operation,
//! and what it makes of the answers.

use vstd::prelude::*;
use crate::error::ServiceError;
use crate::parameters::UpdateEntryBodyParams;
use crate::structs::{clock_secs, cursor_view, stamp, EntryView, LastEvaluatedKey, SPATableEntry};

verus! {

/// A value of a key attribute as the table holds it: a string, or a number
/// written in decimal.
#[derive(Clone, Debug, PartialEq, Eq)]
pub enum AttrValue {
    S(String),
    N(String),
}

/// A query against the table, or against one of its secondary indexes.
pub struct QueryRequest {
    pub table_name: String,
    /// The index to query; `None` queries the table's primary key.
    pub index_name: Option<String>,
    /// `Some(false)` scans the sort key in descending order; `None` leaves the
    /// table's default.
    pub scan_index_forward: Option<bool>,
    /// Always `#name = :value`.
    pub key_condition_expression: String,
    /// The attribute that `#name` stands for.
    pub key_attribute: String,
    /// The string that `:value` stands for.
    pub key_value: String,
    /// The key of the item after which the scan resumes.
    pub exclusive_start_key: Option<Vec<(String, AttrValue)>>,
}

/// An unconditional write of one whole item.
pub struct PutRequest {
    pub table_name: String,
    pub item: SPATableEntry,
}

/// An unconditional delete of the item under a primary key.
pub struct DeleteRequest {
    pub table_name: String,
    pub key_attribute: String,
    pub key_value: AttrValue,
}

/// The digit character for `d < 10`.
pub open spec fn digit_char(d: nat) -> char {
    ((d + 48) as u8) as char
}

/// The decimal text of `n`, without leading zeros.
pub open spec fn decimal(n: nat) -> Seq<char>
    decreases n,
{
    if n < 10 {
        seq![digit_char(n)]
    } else {
        decimal(n / 10).push(digit_char(n % 10))
    }
}

/// Relies on `u64`'s `to_string`, which writes the number in decimal.
#[verifier::external_body]
fn decimal_text(n: u64) -> (r: String)
    ensures
        r@ == decimal(n as nat),
{
    n.to_string()
}

pub open spec fn key_condition() -> Seq<char> {
    "#name = :value"@
}

pub open spec fn user_index() -> Seq<char> {
    "gsi-userid"@
}

/// The attributes of an exclusive start key, as plain values.
pub open spec fn start_key_view(k: Seq<(String, AttrValue)>) -> Seq<(Seq<char>, AttrView)> {
    k.map_values(|p: (String, AttrValue)| (p.0@, attr_view(p.1)))
}

pub enum AttrView {
    S(Seq<char>),
    N(Seq<char>),
}

pub open spec fn attr_view(a: AttrValue) -> AttrView {
    match a {
        AttrValue::S(s) => AttrView::S(s@),
        AttrValue::N(s) => AttrView::N(s@),
    }
}

/// The exclusive start key for a cursor's fields.
pub open spec fn start_key_for(k: (Seq<char>, Seq<char>, u64)) -> Seq<(Seq<char>, AttrView)> {
    seq![
        ("id"@, AttrView::S(k.0)),
        ("user_id"@, AttrView::S(k.1)),
        ("last_modified"@, AttrView::N(decimal(k.2 as nat))),
    ]
}

/// The exclusive start key that stands for a cursor.
pub open spec fn start_key_of(c: LastEvaluatedKey) -> Seq<(Seq<char>, AttrView)> {
    start_key_for(cursor_view(c))
}

/// What a single lookup makes of the table's answer: the first item, unless
/// the answer counts none or holds none.
pub open spec fn single_result(
    id: Seq<char>,
    count: i32,
    items: Option<Seq<EntryView>>,
) -> Result<EntryView, Seq<char>> {
    match items {
        Some(s) => if count != 0 && s.len() > 0 {
            Ok(s[0])
        } else {
            Err(id)
        },
        None => Err(id),
    }
}

/// A field after a patch: the patch's value where there is one.
pub open spec fn overlay(patch: Option<String>, current: Seq<char>) -> Seq<char> {
    match patch {
        Some(s) => s@,
        None => current,
    }
}

/// An entry after a partial update, stamped with the clock's reading, or
/// keeping its timestamp where the clock could not be read.
pub open spec fn merged(current: EntryView, updates: UpdateEntryBodyParams, clock: Option<u64>) -> EntryView {
    EntryView {
        id: current.id,
        user_id: current.user_id,
        last_modified: stamp(clock, current.last_modified),
        title: overlay(updates.title, current.title),
        description: overlay(updates.description, current.description),
    }
}

/// The entries that a page holds, as plain values.
pub open spec fn entries_view(v: Seq<SPATableEntry>) -> Seq<EntryView> {
    v.map_values(|e: SPATableEntry| e@)
}

/// Overlays the fields present in `updates` on `current` and stamps it.
pub fn apply_updates(
    current: SPATableEntry,
    updates: UpdateEntryBodyParams,
    clock: Option<u64>,
) -> (r: SPATableEntry)
    ensures
        r@ == merged(current@, updates, clock),
{
    let mut current = current;
    let timestamp: u64 = match clock {
        Some(t) => t,
        None => current.last_modified,
    };
    if let Some(title) = updates.title {
        current.title = title;
    }
    if let Some(description) = updates.description {
        current.description = description;
    }
    current.last_modified = timestamp;
    current
}

/// The key attributes from which a scan resumes after `cursor`.
pub fn exclusive_start_key(cursor: LastEvaluatedKey) -> (r: Vec<(String, AttrValue)>)
    ensures
        start_key_view(r@) == start_key_of(cursor),
{
    let last_modified = decimal_text(cursor.last_modified);
    let ghost c = cursor;
    let mut key: Vec<(String, AttrValue)> = Vec::new();
    key.push(("id".to_owned(), AttrValue::S(cursor.id)));
    key.push(("user_id".to_owned(), AttrValue::S(cursor.user_id)));
    key.push(("last_modified".to_owned(), AttrValue::N(last_modified)));
    assert(start_key_view(key@) =~= start_key_of(c));
    key
}

/// The repository: what to ask the table for each operation, and what each
/// answer means. It keeps no entry state of its own.
pub struct EntryRepository {
    pub table_name: String,
}

impl EntryRepository {
    pub fn new(table_name: &str) -> (r: Self)
        ensures
            r.table_name@ == table_name@,
    {
        EntryRepository { table_name: table_name.to_owned() }
    }

    /// A repository for the configured table name, or `Config` where none is
    /// configured.
    pub fn from_config(table_name: Option<String>) -> (r: Result<Self, ServiceError>)
        ensures
            table_name.is_none() <==> r == Err::<Self, ServiceError>(ServiceError::Config),
            table_name.is_some() ==> r.is_ok() && r.unwrap().table_name@ == table_name.unwrap()@,
    {
        match table_name {
            Some(t) => Ok(EntryRepository { table_name: t }),
            None => Err(ServiceError::Config),
        }
    }

    /// The query for one page of a user's entries, most recent first,
    /// resuming after `cursor` where one is given.
    pub fn query_entries(&self, user_id: &str, cursor: Option<LastEvaluatedKey>) -> (r: QueryRequest)
        ensures
            r.table_name@ == self.table_name@,
            r.index_name.is_some() && r.index_name.unwrap()@ == user_index(),
            r.scan_index_forward == Some(false),
            r.key_condition_expression@ == key_condition(),
            r.key_attribute@ == "user_id"@,
            r.key_value@ == user_id@,
            r.exclusive_start_key.is_some() <==> cursor.is_some(),
            cursor.is_some() ==> start_key_view(r.exclusive_start_key.unwrap()@)
                == start_key_of(cursor.unwrap()),
    {
        let exclusive_start_key = match cursor {
            Some(c) => Some(exclusive_start_key(c)),
            None => None,
        };
        QueryRequest {
            table_name: self.table_name.clone(),
            index_name: Some("gsi-userid".to_owned()),
            scan_index_forward: Some(false),
            key_condition_expression: "#name = :value".to_owned(),
            key_attribute: "user_id".to_owned(),
            key_value: user_id.to_owned(),
            exclusive_start_key,
        }
    }

    /// The query for the entry whose primary key is `id`.
    pub fn get_entry_single(&self, id: &str) -> (r: QueryRequest)
        ensures
            r.table_name@ == self.table_name@,
            r.index_name.is_none(),
            r.scan_index_forward.is_none(),
            r.key_condition_expression@ == key_condition(),
            r.key_attribute@ == "id"@,
            r.key_value@ == id@,
            r.exclusive_start_key.is_none(),
    {
        QueryRequest {
            table_name: self.table_name.clone(),
            index_name: None,
            scan_index_forward: None,
            key_condition_expression: "#name = :value".to_owned(),
            key_attribute: "id".to_owned(),
            key_value: id.to_owned(),
            exclusive_start_key: None,
        }
    }

    /// The write of a new entry for `user_id`, with a fresh id and the
    /// current time.
    pub fn register_entry(&self, user_id: &str, title: &str, description: &str) -> (r: PutRequest)
        ensures
            r.table_name@ == self.table_name@,
            r.item.id@.len() == 36,
            r.item.user_id@ == user_id@,
            r.item.title@ == title@,
            r.item.description@ == description@,
    {
        let item = SPATableEntry::new(user_id, title, description);
        PutRequest { table_name: self.table_name.clone(), item }
    }

    /// The write-back of `current` (as read from the table) after `updates`,
    /// stamped with the current time, or keeping its timestamp where the
    /// clock cannot be read.
    pub fn update_entry_single(&self, current: SPATableEntry, updates: UpdateEntryBodyParams) -> (r:
        PutRequest)
        ensures
            r.table_name@ == self.table_name@,
            exists|clock: Option<u64>| r.item@ == merged(current@, updates, clock),
    {
        let clock = clock_secs();
        self.update_entry_with_clock(current, updates, clock)
    }

    /// The write-back of `current` (as read from the table) after `updates`,
    /// stamped with the clock's reading `clock`.
    pub fn update_entry_with_clock(
        &self,
        current: SPATableEntry,
        updates: UpdateEntryBodyParams,
        clock: Option<u64>,
    ) -> (r: PutRequest)
        ensures
            r.table_name@ == self.table_name@,
            r.item@ == merged(current@, updates, clock),
    {
        let item = apply_updates(current, updates, clock);
        PutRequest { table_name: self.table_name.clone(), item }
    }

    /// The unconditional delete of the item under `id`.
    pub fn delete_entry(&self, id: &str) -> (r: DeleteRequest)
        ensures
            r.table_name@ == self.table_name@,
            r.key_attribute@ == "id"@,
            attr_view(r.key_value) == AttrView::S(id@),
    {
        DeleteRequest {
            table_name: self.table_name.clone(),
            key_attribute: "id".to_owned(),
            key_value: AttrValue::S(id.to_owned()),
        }
    }
}

/// What a write comes to: the entry as persisted, or the table's failure.
pub fn put_outcome(request: PutRequest, sent: Result<(), ServiceError>) -> (r: Result<
    SPATableEntry,
    ServiceError,
>)
    ensures
        sent.is_ok() ==> r.is_ok() && r.unwrap()@ == request.item@,
        sent.is_err() ==> r == Err::<SPATableEntry, ServiceError>(sent.unwrap_err()),
{
    match sent {
        Ok(()) => Ok(request.item),
        Err(e) => Err(e),
    }
}

/// What a lookup by id comes to, given the count and the items of the
/// table's answer.
pub fn single_entry(id: &str, count: i32, items: Option<Vec<SPATableEntry>>) -> (r: Result<
    SPATableEntry,
    ServiceError,
>)
    ensures
        match single_result(id@, count, match items {
            Some(v) => Some(entries_view(v@)),
            None => None,
        }) {
            Ok(e) => r.is_ok() && r.unwrap()@ == e,
            Err(_) => r is Err && r.unwrap_err() is NotFound && r.unwrap_err()->NotFound_id@ == id@,
        },
{
    match items {
        Some(mut v) => {
            if count != 0 && v.len() > 0 {
                Ok(v.remove(0))
            } else {
                Err(ServiceError::NotFound { id: id.to_owned() })
            }
        },
        None => Err(ServiceError::NotFound { id: id.to_owned() }),
    }
}

/// What a page of a listing comes to: its entries and the cursor to resume
/// from, or a storage failure where the answer holds no item list.
pub fn entries_page(items: Option<Vec<SPATableEntry>>, last_key: Option<LastEvaluatedKey>) -> (r:
    Result<(Vec<SPATableEntry>, Option<LastEvaluatedKey>), ServiceError>)
    ensures
        items.is_none() <==> r is Err,
        r is Err ==> r.unwrap_err() is Storage,
        items.is_some() ==> r.is_ok() && r.unwrap().0@ == items.unwrap()@ && r.unwrap().1
            == last_key,
{
    match items {
        Some(v) => Ok((v, last_key)),
        None => Err(ServiceError::Storage { detail: "items not available".to_owned() }),
    }
}

} // verus!
