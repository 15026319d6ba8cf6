//! Opening the store at startup.
//!
//! The store is opened at its location, switched to write-ahead logging so
//! that readers are not held up by the writer, and brought up to date. The
//! caller gets a connection only when all of that went through.

use vstd::prelude::*;
use crate::error::StoreError;
use crate::location::StoreLocation;
use crate::migration::engine::{migrate, MigrationReport};
use crate::migration::order::{in_order, lemma_in_order};
use crate::migration::plan::{lemma_pending_members, pending};
use crate::migration::script::{models, MigrationScript};
use crate::store::{execute_batch, open};
use vstd::seq_lib::group_to_multiset_ensures;

verus! {

/// The statement that switches the store to write-ahead logging.
pub fn journal_statement() -> (statement: &'static str)
    ensures
        statement@ == "PRAGMA journal_mode = WAL;"@,
{
    "PRAGMA journal_mode = WAL;"
}

/// Turns what opening or configuring the store returned into the step's
/// result: a failure of the store is passed on as it is.
pub fn store_ready<T>(done: Result<T, rusqlite::Error>) -> (result: Result<T, StoreError>)
    ensures
        result == match done {
            Ok(value) => Ok::<T, StoreError>(value),
            Err(cause) => Err(StoreError::Sqlite(cause)),
        },
{
    match done {
        Ok(value) => Ok(value),
        Err(cause) => Err(StoreError::Sqlite(cause)),
    }
}

/// What the initializer returns for a run of the engine: the connection and
/// the report when the run went through; the engine's error, as it is, when
/// the version could not be read or a script failed.
pub open spec fn handed_out(
    conn: rusqlite::Connection,
    migrated: Result<MigrationReport, StoreError>,
) -> Result<(rusqlite::Connection, MigrationReport), StoreError> {
    match migrated {
        Err(e) => Err(e),
        Ok(report) => match report.failure {
            Some(e) => Err(e),
            None => Ok((conn, report)),
        },
    }
}

/// Decides what becomes of an opened store once the engine has run: the
/// connection is handed out only when the engine reports no failure, and a
/// failure is passed on unchanged.
pub fn hand_out(conn: rusqlite::Connection, migrated: Result<MigrationReport, StoreError>) -> (result:
    Result<(rusqlite::Connection, MigrationReport), StoreError>)
    ensures
        result == handed_out(conn, migrated),
{
    match migrated {
        Err(e) => Err(e),
        Ok(report) => {
            let MigrationReport { start, applied, failure } = report;
            match failure {
                Some(e) => Err(e),
                None => Ok((conn, MigrationReport { start, applied, failure: None })),
            }
        },
    }
}

/// Opens the store at `location`, creating the backing file when there is
/// none, switches it to write-ahead logging and applies the scripts that it
/// lacks, in ascending order.
///
/// On success the connection comes with the report of the run, which did
/// not fail: from the version the store was at, every script above it was
/// committed, in order. A failure is that of the store itself, that of
/// reading its version, or belongs to one of the scripts; no connection is
/// handed out then.
pub fn init_database(location: &StoreLocation, scripts: Vec<MigrationScript>) -> (result: Result<
    (rusqlite::Connection, MigrationReport),
    StoreError,
>)
    ensures
        result matches Ok((_, report)) ==> report.failure is None && report.describes_run(
            in_order(models(scripts@)),
            report.start,
        ),
        result matches Err(e) ==> e is Sqlite || e is VersionRead || exists|i: int|
            0 <= i < scripts@.len() && e.script_version() == Some(
                (#[trigger] scripts@[i]).version,
            ),
{
    let ghost given = models(scripts@);
    let path = location.backing_file();
    let mut conn = match store_ready(open(&path)) {
        Ok(conn) => conn,
        Err(e) => {
            return Err(e);
        },
    };
    match store_ready(execute_batch(&conn, journal_statement())) {
        Ok(_) => {},
        Err(e) => {
            return Err(e);
        },
    }
    let migrated = migrate(&mut conn, scripts);
    proof {
        broadcast use group_to_multiset_ensures;

        if migrated is Ok && migrated->Ok_0.failure is Some {
            let report = migrated->Ok_0;
            {
                let sorted = in_order(given);
                lemma_in_order(given);
                lemma_pending_members(sorted, report.start);
                let culprit = pending(sorted, report.start)[report.applied@.len() as int];
                assert(sorted.contains(culprit));
                assert(given.to_multiset().count(culprit) > 0);
                assert(given.contains(culprit));
                let w = choose|w: int| 0 <= w < given.len() && given[w] == culprit;
                assert(scripts@[w].version == culprit.version);
            }
        }
    }
    hand_out(conn, migrated)
}

} // verus!
