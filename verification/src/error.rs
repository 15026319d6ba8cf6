//! What can go wrong with the store.

use vstd::prelude::*;
use vstd::std_specs::convert::FromSpecImpl;
use crate::relocation::RelocationStep;

verus! {

/// A failure of the store's lifecycle.
#[derive(Debug)]
pub enum StoreError {
    /// The script source could not be read.
    ScriptDiscovery { reason: String },
    /// The schema version could not be read from the store.
    VersionRead { cause: rusqlite::Error },
    /// The statements of the script with this version failed. The store is
    /// left at the version it had before the script.
    MigrationFailed { version: u32, cause: rusqlite::Error },
    /// The script with this version ran, but its version could not be
    /// recorded; the script's effects are not kept.
    VersionWrite { version: u32, cause: rusqlite::Error },
    /// The transaction around the script with this version could not be
    /// opened, committed or rolled back.
    Transaction { version: u32, cause: rusqlite::Error },
    /// Any other failure of the store.
    Sqlite(rusqlite::Error),
    /// A relocation failed at the given step.
    RelocationIo { step: RelocationStep, reason: String },
}

impl StoreError {
    /// The version of the script that the failure belongs to, if it belongs
    /// to one.
    pub open spec fn script_version(self) -> Option<u32> {
        match self {
            StoreError::MigrationFailed { version, .. } => Some(version),
            StoreError::VersionWrite { version, .. } => Some(version),
            StoreError::Transaction { version, .. } => Some(version),
            _ => None,
        }
    }

    /// The version of the script that the failure belongs to, if it belongs
    /// to one.
    pub fn version(&self) -> (version: Option<u32>)
        ensures
            version == self.script_version(),
    {
        match self {
            StoreError::MigrationFailed { version, .. } => Some(*version),
            StoreError::VersionWrite { version, .. } => Some(*version),
            StoreError::Transaction { version, .. } => Some(*version),
            _ => None,
        }
    }
}

impl From<rusqlite::Error> for StoreError {
    fn from(cause: rusqlite::Error) -> (e: StoreError) {
        StoreError::Sqlite(cause)
    }
}

impl FromSpecImpl<rusqlite::Error> for StoreError {
    open spec fn obeys_from_spec() -> bool {
        true
    }

    open spec fn from_spec(cause: rusqlite::Error) -> StoreError {
        StoreError::Sqlite(cause)
    }
}

} // verus!
