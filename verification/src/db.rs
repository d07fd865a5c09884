//! What the store is asked for: the index that keeps user names unique,
//! and the check that an index already exists.
use vstd::prelude::*;
use crate::text::str_eq;
use crate::user::User;

verus! {

/// An index to keep on a collection: one key field with its direction, and
/// the index's options.
#[derive(Clone, Copy, Debug, PartialEq, Eq)]
pub struct IndexSpec {
    pub key: &'static str,
    pub direction: i32,
    pub sparse: bool,
    pub unique: bool,
    pub name: &'static str,
}

impl User {
    /// The index on accounts: user names ascending, unique and sparse,
    /// named "usernameIndex".
    pub fn index_spec() -> (r: IndexSpec)
        ensures
            r.key@ == "username"@,
            r.direction == 1,
            r.sparse,
            r.unique,
            r.name@ == "usernameIndex"@,
    {
        IndexSpec {
            key: "username",
            direction: 1,
            sparse: true,
            unique: true,
            name: "usernameIndex",
        }
    }
}

/// Whether an existing index (whose options name it `existing`, if they
/// name it at all) is the index named `wanted`, so that it need not be
/// created again.
pub fn index_name_matches(existing: Option<&str>, wanted: &str) -> (r: bool)
    ensures
        r == match existing {
            Some(n) => n@ == wanted@,
            None => false,
        },
{
    match existing {
        Some(n) => str_eq(n, wanted),
        None => false,
    }
}

/// What the scan of a collection's existing indexes reports.
#[derive(Clone, Debug, PartialEq, Eq)]
pub enum IndexScanEvent {
    /// The existing indexes could not be listed.
    ListingUnavailable,
    /// The next existing index, with its name if its options give one.
    Listed(Option<String>),
    /// Every existing index has been seen.
    Exhausted,
}

/// What to do next while making sure an index exists.
#[derive(Clone, Copy, Debug, PartialEq, Eq, Structural)]
pub enum IndexScanAction {
    /// Look at the next existing index.
    KeepScanning,
    /// The index is already there: nothing to create.
    AlreadyPresent,
    /// Create the index.
    Create,
}

/// The next step in making sure that the index named `wanted` exists: stop
/// at an existing index of that name; create the index once the existing
/// ones are exhausted, or when they cannot be listed at all.
pub fn ensure_index_step(wanted: &str, event: &IndexScanEvent) -> (r: IndexScanAction)
    ensures
        r == match event {
            IndexScanEvent::ListingUnavailable => IndexScanAction::Create,
            IndexScanEvent::Exhausted => IndexScanAction::Create,
            IndexScanEvent::Listed(name) => if name matches Some(n) && n@ == wanted@ {
                IndexScanAction::AlreadyPresent
            } else {
                IndexScanAction::KeepScanning
            },
        },
{
    match event {
        IndexScanEvent::ListingUnavailable => IndexScanAction::Create,
        IndexScanEvent::Exhausted => IndexScanAction::Create,
        IndexScanEvent::Listed(name) => {
            let existing = match name {
                Some(n) => Some(n.as_str()),
                None => None,
            };
            if index_name_matches(existing, wanted) {
                IndexScanAction::AlreadyPresent
            } else {
                IndexScanAction::KeepScanning
            }
        },
    }
}

} // verus!
