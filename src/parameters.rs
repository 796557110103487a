//! What callers supply to the repository's operations.

use vstd::prelude::*;
use crate::structs::LastEvaluatedKey;

verus! {

/// What a caller supplies to create an entry.
#[derive(Clone, Debug, PartialEq, Eq)]
pub struct PutNewEntryBodyParams {
    pub user_id: String,
    pub title: String,
    pub description: String,
}

/// A partial update: each field that is present replaces the entry's own.
#[derive(Clone, Debug, PartialEq, Eq)]
pub struct UpdateEntryBodyParams {
    pub title: Option<String>,
    pub description: Option<String>,
}

/// What a caller supplies to list a user's entries: the user, and optionally
/// the two fields of a cursor that resume an earlier listing.
#[derive(Clone, Debug, PartialEq, Eq)]
pub struct GetEntriesQueryParams {
    pub user_id: String,
    pub id: Option<String>,
    pub last_modified: Option<u64>,
}

impl GetEntriesQueryParams {
    /// The cursor that the query resumes from: present only where both of its
    /// fields were supplied.
    pub fn cursor(&self) -> (r: Option<LastEvaluatedKey>)
        ensures
            r.is_some() <==> (self.id.is_some() && self.last_modified.is_some()),
            r.is_some() ==> r.unwrap().id@ == self.id.unwrap()@
                && r.unwrap().user_id@ == self.user_id@
                && r.unwrap().last_modified == self.last_modified.unwrap(),
    {
        match (&self.id, &self.last_modified) {
            (Some(id), Some(last_modified)) => Some(
                LastEvaluatedKey::new(id.as_str(), self.user_id.as_str(), last_modified),
            ),
            _ => None,
        }
    }
}

} // verus!
