//! A model of the backing table and of its listing index, and what the
//! repository's operations come to against it.

use vstd::prelude::*;
use crate::dynamo_service::{merged, single_result, start_key_for, AttrView};
use crate::parameters::UpdateEntryBodyParams;
use crate::structs::{created, key_of, EntryView};

verus! {

/// The backing table as the repository sees it: entries by primary key.
pub type TableView = Map<Seq<char>, EntryView>;

/// The table after an unconditional write of `e`.
pub open spec fn after_put(t: TableView, e: EntryView) -> TableView {
    t.insert(e.id, e)
}

/// The table after an unconditional delete of the item under `id`.
pub open spec fn after_delete(t: TableView, id: Seq<char>) -> TableView {
    t.remove(id)
}

/// The count that a primary-key query for `id` answers with.
pub open spec fn lookup_count(t: TableView, id: Seq<char>) -> i32 {
    if t.contains_key(id) {
        1
    } else {
        0
    }
}

/// The items that a primary-key query for `id` answers with.
pub open spec fn lookup_items(t: TableView, id: Seq<char>) -> Seq<EntryView> {
    if t.contains_key(id) {
        seq![t[id]]
    } else {
        seq![]
    }
}

/// What a lookup of `id` in `t` comes to.
pub open spec fn get_in(t: TableView, id: Seq<char>) -> Result<EntryView, Seq<char>> {
    single_result(id, lookup_count(t, id), Some(lookup_items(t, id)))
}

/// A user's scan: the entries of the listing index (in index order) that
/// belong to `user`.
pub open spec fn user_scan(index: Seq<EntryView>, user: Seq<char>) -> Seq<EntryView> {
    index.filter(|e: EntryView| e.user_id == user)
}

/// Where a scan resumes after the item whose key is `start`: just after that
/// item, or at the end where no item has that key.
pub open spec fn resume_pos(scan: Seq<EntryView>, start: Option<Seq<(Seq<char>, AttrView)>>) -> int {
    match start {
        None => 0,
        Some(k) => if exists|i: int| 0 <= i < scan.len() && start_key_for(key_of(scan[i])) == k {
            (choose|i: int| 0 <= i < scan.len() && start_key_for(key_of(scan[i])) == k) + 1
        } else {
            scan.len() as int
        },
    }
}

/// One page of at most `limit` items from `start` on, with the key of its last
/// item where more items follow.
pub open spec fn page_of(scan: Seq<EntryView>, start: int, limit: nat) -> (
    Seq<EntryView>,
    Option<(Seq<char>, Seq<char>, u64)>,
) {
    let end = if start + limit < scan.len() {
        start + limit
    } else {
        scan.len() as int
    };
    (scan.subrange(start, end), if end < scan.len() {
        Some(key_of(scan[end - 1]))
    } else {
        None
    })
}

/// Everything that listing returns from position `start` on, where each call
/// resumes from the cursor that the previous one returned, until none is
/// returned.
pub open spec fn listing(scan: Seq<EntryView>, start: int, limit: nat) -> Seq<EntryView>
    decreases scan.len() - start,
{
    let page = page_of(scan, start, limit);
    match page.1 {
        None => page.0,
        Some(k) => {
            let next = resume_pos(scan, Some(start_key_for(k)));
            if start < next <= scan.len() {
                page.0 + listing(scan, next, limit)
            } else {
                page.0
            }
        },
    }
}

/// Each entry of the table is stored under its own id.
pub open spec fn well_keyed(t: TableView) -> bool {
    forall|k: Seq<char>| #[trigger] t.contains_key(k) ==> t[k].id == k
}

/// No two entries of a scan share an id.
pub open spec fn distinct_ids(scan: Seq<EntryView>) -> bool {
    forall|i: int, j: int| 0 <= i < scan.len() && 0 <= j < scan.len() && i != j ==> scan[i].id != scan[j].id
}

/// A created entry is found again under its id, with the fields it was
/// created with; its timestamp is positive where the clock read a positive
/// time.
pub proof fn create_then_get(
    t: TableView,
    id: Seq<char>,
    user_id: Seq<char>,
    title: Seq<char>,
    description: Seq<char>,
    clock: Option<u64>,
)
    ensures
        get_in(after_put(t, created(id, user_id, title, description, clock)), id) == Ok::<
            EntryView,
            Seq<char>,
        >(created(id, user_id, title, description, clock)),
        clock.is_some() && clock.unwrap() > 0 ==> created(
            id,
            user_id,
            title,
            description,
            clock,
        ).last_modified > 0,
{
}

/// An update replaces the fields that the patch holds, keeps the others, and
/// leaves the timestamp no earlier than before where the clock has not gone
/// back; the entry read afterwards is the merged one.
pub proof fn update_merges(
    t: TableView,
    id: Seq<char>,
    updates: UpdateEntryBodyParams,
    clock: Option<u64>,
)
    requires
        well_keyed(t),
        t.contains_key(id),
        clock.is_none() || clock.unwrap() >= t[id].last_modified,
    ensures
        get_in(t, id) is Ok,
        ({
            let m = merged(get_in(t, id)->Ok_0, updates, clock);
            &&& get_in(after_put(t, m), id) == Ok::<EntryView, Seq<char>>(m)
            &&& m.title == (match updates.title {
                Some(s) => s@,
                None => t[id].title,
            })
            &&& m.description == (match updates.description {
                Some(s) => s@,
                None => t[id].description,
            })
            &&& m.last_modified >= t[id].last_modified
        }),
{
}

/// An empty patch changes neither title nor description, and leaves the
/// timestamp no earlier than before where the clock has not gone back.
pub proof fn empty_update_keeps_fields(
    t: TableView,
    id: Seq<char>,
    updates: UpdateEntryBodyParams,
    clock: Option<u64>,
)
    requires
        t.contains_key(id),
        updates.title.is_none(),
        updates.description.is_none(),
        clock.is_none() || clock.unwrap() >= t[id].last_modified,
    ensures
        ({
            let m = merged(t[id], updates, clock);
            &&& m.id == t[id].id
            &&& m.title == t[id].title
            &&& m.description == t[id].description
            &&& m.last_modified >= t[id].last_modified
        }),
{
}

/// After a delete, a lookup of the same id finds nothing.
pub proof fn delete_then_get(t: TableView, id: Seq<char>)
    ensures
        get_in(after_delete(t, id), id) == Err::<EntryView, Seq<char>>(id),
{
}

/// Deleting an id that no entry has leaves the table as it was.
pub proof fn delete_missing_is_noop(t: TableView, id: Seq<char>)
    requires
        !t.contains_key(id),
    ensures
        after_delete(t, id) == t,
{
    assert(after_delete(t, id) =~= t);
}

/// Listing a scan page by page, each call resuming from the cursor that the
/// previous one returned, yields every entry exactly once and in scan order
/// (most recent first), and stops when no cursor is returned.
pub proof fn listing_is_complete(scan: Seq<EntryView>, limit: nat)
    requires
        distinct_ids(scan),
        limit > 0,
    ensures
        listing(scan, 0, limit) == scan,
{
    lemma_listing_from(scan, 0, limit);
    assert(scan.subrange(0, scan.len() as int) =~= scan);
}

proof fn lemma_listing_from(scan: Seq<EntryView>, start: int, limit: nat)
    requires
        distinct_ids(scan),
        limit > 0,
        0 <= start <= scan.len(),
    ensures
        listing(scan, start, limit) == scan.subrange(start, scan.len() as int),
    decreases scan.len() - start,
{
    let page = page_of(scan, start, limit);
    if let Some(k) = page.1 {
        let end = start + limit;
        let key = start_key_for(k);
        assert(start_key_for(key_of(scan[end - 1])) == key);
        let i = choose|i: int| 0 <= i < scan.len() && start_key_for(key_of(scan[i])) == key;
        assert(start_key_for(key_of(scan[i]))[0] == key[0]);
        assert(scan[i].id == scan[end - 1].id);
        assert(resume_pos(scan, Some(key)) == end);
        lemma_listing_from(scan, end, limit);
        assert(scan.subrange(start, end) + scan.subrange(end, scan.len() as int) =~= scan.subrange(
            start,
            scan.len() as int,
        ));
    }
}

/// A user with no entries gets an empty page and no cursor.
pub proof fn unknown_user_lists_nothing(index: Seq<EntryView>, user: Seq<char>, limit: nat)
    requires
        forall|i: int| 0 <= i < index.len() ==> index[i].user_id != user,
    ensures
        page_of(user_scan(index, user), resume_pos(user_scan(index, user), None), limit)
            == (Seq::<EntryView>::empty(), Option::<(Seq<char>, Seq<char>, u64)>::None),
{
    let s = user_scan(index, user);
    lemma_scan_of_absent_user(index, user);
    assert(s.subrange(0, 0) =~= Seq::<EntryView>::empty());
}

proof fn lemma_scan_of_absent_user(index: Seq<EntryView>, user: Seq<char>)
    requires
        forall|i: int| 0 <= i < index.len() ==> index[i].user_id != user,
    ensures
        user_scan(index, user).len() == 0,
    decreases index.len(),
{
    reveal(Seq::filter);
    if index.len() > 0 {
        let rest = index.drop_last();
        assert forall|i: int| 0 <= i < rest.len() implies rest[i].user_id != user by {
            assert(rest[i] == index[i]);
        }
        lemma_scan_of_absent_user(rest, user);
    }
}

} // verus!
