//! What the service asks of the document store, and what the store answers.
//!
//! A handler issues exactly one operation per request. The operations are
//! plain values here; the program around the library hands them to the store
//! connector and brings back the acknowledgment or the failure.

use vstd::prelude::*;
use crate::models::project::ObjectId;

verus! {

/// The collection that holds the projects.
pub const PROJECTS: &'static str = "projects";

/// The collection that holds the users.
pub const USERS: &'static str = "users";

/// The field under which the store keeps a record's identifier.
pub const ID_FIELD: &'static str = "_id";

/// The name under which the service introduces itself to the store.
pub const APP_NAME: &'static str = "HappyProject";

/// The environment variable that holds the connection string.
pub const CONNECTION_STRING_VAR: &'static str = "MONGODB_CONNECTION_STRING";

/// Selects the records whose `field` equals `value`.
#[derive(Clone, Debug, PartialEq, Eq)]
pub struct Filter {
    pub field: String,
    pub value: String,
}

/// The direction of a sort.
#[derive(Clone, Copy, Debug, PartialEq, Eq, Structural)]
pub enum SortOrder {
    Ascending,
    Descending,
}

impl SortOrder {
    /// The number that stands for the direction in a sort document.
    pub open spec fn sign(self) -> int {
        match self {
            SortOrder::Ascending => 1,
            SortOrder::Descending => -1,
        }
    }

    pub fn direction(&self) -> (d: i32)
        ensures
            d as int == self.sign(),
    {
        match self {
            SortOrder::Ascending => 1,
            SortOrder::Descending => -1,
        }
    }
}

/// Orders the records of a query by one field.
#[derive(Clone, Debug, PartialEq, Eq)]
pub struct Sort {
    pub field: String,
    pub order: SortOrder,
}

/// Replaces the value of `field` by `value` in every record it is applied to.
#[derive(Clone, Debug, PartialEq, Eq)]
pub struct Update {
    pub field: String,
    pub value: String,
}

/// Insert `records`, in this order, into `collection`.
#[derive(Clone, Debug, PartialEq, Eq)]
pub struct InsertMany<T> {
    pub collection: String,
    pub records: Vec<T>,
}

/// Query `collection` for the records that `filter` selects, in the order
/// that `sort` gives.
#[derive(Clone, Debug, PartialEq, Eq)]
pub struct Find {
    pub collection: String,
    pub filter: Filter,
    pub sort: Sort,
}

/// Apply `update` to every record of `collection` that `filter` selects.
#[derive(Clone, Debug, PartialEq, Eq)]
pub struct UpdateMany {
    pub collection: String,
    pub filter: Filter,
    pub update: Update,
}

/// Remove every record of `collection` that `filter` selects.
#[derive(Clone, Debug, PartialEq, Eq)]
pub struct DeleteMany {
    pub collection: String,
    pub filter: Filter,
}

/// An identifier as the store reports it in an acknowledgment.
#[derive(Clone, Debug, PartialEq, Eq)]
pub enum RecordId {
    /// The kind of identifier that the store assigns by itself.
    ObjectId(ObjectId),
    /// An identifier of any other kind, by its rendering.
    Other(String),
}

/// The identifier of one inserted record, with the record's place in the
/// sequence that was submitted.
#[derive(Clone, Debug, PartialEq, Eq)]
pub struct InsertedId {
    pub index: usize,
    pub id: RecordId,
}

/// The store's acknowledgment of a bulk insert: the identifiers of the
/// records it inserted, by rising index.
#[derive(Clone, Debug, PartialEq, Eq)]
pub struct InsertManyResult {
    pub inserted_ids: Vec<InsertedId>,
}

impl InsertManyResult {
    /// How many records the store acknowledged.
    pub open spec fn count(self) -> nat {
        self.inserted_ids@.len()
    }

    /// No identifier is acknowledged twice.
    pub open spec fn distinct(self) -> bool {
        forall|i: int, j: int|
            0 <= i < j < self.inserted_ids@.len() ==> (#[trigger] self.inserted_ids@[i]).id != (
            #[trigger] self.inserted_ids@[j]).id
    }

    /// The acknowledgment covers each of `submitted` records, at its place,
    /// with an identifier of its own.
    pub open spec fn acknowledges(self, submitted: nat) -> bool {
        &&& self.count() == submitted
        &&& forall|i: int|
            0 <= i < self.inserted_ids@.len() ==> (#[trigger] self.inserted_ids@[i]).index == i
        &&& self.distinct()
    }

    /// The acknowledgment of an insert of no records.
    pub fn empty() -> (ack: InsertManyResult)
        ensures
            ack.inserted_ids@.len() == 0,
            ack.acknowledges(0),
    {
        InsertManyResult { inserted_ids: Vec::new() }
    }

    pub fn inserted_count(&self) -> (n: usize)
        ensures
            n as nat == self.count(),
    {
        self.inserted_ids.len()
    }
}

/// The store's acknowledgment of a bulk update.
#[derive(Clone, Debug, PartialEq, Eq)]
pub struct UpdateResult {
    pub matched_count: u64,
    pub modified_count: u64,
    pub upserted_id: Option<RecordId>,
}

/// The store's acknowledgment of a bulk delete.
#[derive(Clone, Copy, Debug, PartialEq, Eq, Structural)]
pub struct DeleteResult {
    pub deleted_count: u64,
}

/// What is needed to reach the store.
#[derive(Clone, Debug, PartialEq, Eq)]
pub struct DbInfo {
    pub connection_string: String,
    pub app_name: String,
}

} // verus!
