//! Applying scripts to a store.
//!
//! Each script runs in a transaction of its own, together with the write of
//! its version, so the store is always at a version whose script ran in
//! full. The first failure ends the run; what was committed before stays.

use vstd::prelude::*;
use vstd::seq_lib::group_to_multiset_ensures;
use vstd::string::StringExecFns;
use crate::error::StoreError;
use crate::migration::order::{in_order, is_ordered, lemma_in_order, order};
use crate::migration::plan::{
    lemma_ordered_versions_ascend,
    lemma_pending_keeps_order,
    lemma_pending_members,
    lemma_pending_split,
    lemma_rerun_applies_nothing,
    lemma_target_is_highest,
    pending,
    target_version,
    version_reached,
    versions,
};
use crate::migration::script::{
    decimal_digits,
    models,
    push_decimal,
    MigrationScript,
    ScriptModel,
};
use crate::store::{begin, commit, connection_of, execute_batch, query_u32, rollback};

verus! {

/// The statement that sets the schema version.
pub open spec fn version_statement_text(version: u32) -> Seq<char> {
    "PRAGMA user_version = "@ + decimal_digits(version as nat)
}

/// Builds the statement that sets the schema version.
pub fn version_statement(version: u32) -> (statement: String)
    ensures
        statement@ == version_statement_text(version),
{
    let mut statement = String::from_str("PRAGMA user_version = ");
    push_decimal(&mut statement, version);
    statement
}

/// What became of the transaction around one script.
#[derive(Debug)]
pub enum StepOutcome {
    /// The transaction could not be opened.
    NotStarted(rusqlite::Error),
    /// The script's statements failed with `cause`; `undo` is what rolling
    /// back returned.
    ScriptFailed { cause: rusqlite::Error, undo: Result<(), rusqlite::Error> },
    /// The script ran, and the write of its version failed.
    VersionNotWritten(rusqlite::Error),
    /// Script and version were written, and the commit failed.
    NotCommitted(rusqlite::Error),
    /// Script and version are committed.
    Committed,
}

/// The result of one step, for the script with the given version.
pub open spec fn settled(version: u32, outcome: StepOutcome) -> Result<(), StoreError> {
    match outcome {
        StepOutcome::Committed => Ok(()),
        StepOutcome::NotStarted(cause) => Err(StoreError::Transaction { version, cause }),
        StepOutcome::ScriptFailed { cause, undo: Ok(_) } => Err(
            StoreError::MigrationFailed { version, cause },
        ),
        StepOutcome::ScriptFailed { cause, undo: Err(undo_cause) } => Err(
            StoreError::Transaction { version, cause: undo_cause },
        ),
        StepOutcome::VersionNotWritten(cause) => Err(StoreError::VersionWrite { version, cause }),
        StepOutcome::NotCommitted(cause) => Err(StoreError::Transaction { version, cause }),
    }
}

/// Turns what became of a script's transaction into the result of the step.
/// Only a committed transaction is a success. A script whose statements
/// failed is reported as such when the rollback went through; when the
/// rollback failed too, its failure is the one reported.
pub fn settle(version: u32, outcome: StepOutcome) -> (result: Result<(), StoreError>)
    ensures
        result == settled(version, outcome),
        result matches Err(e) ==> e.script_version() == Some(version),
{
    match outcome {
        StepOutcome::Committed => Ok(()),
        StepOutcome::NotStarted(cause) => Err(StoreError::Transaction { version, cause }),
        StepOutcome::ScriptFailed { cause, undo } => match undo {
            Ok(_) => Err(StoreError::MigrationFailed { version, cause }),
            Err(undo_cause) => Err(StoreError::Transaction { version, cause: undo_cause }),
        },
        StepOutcome::VersionNotWritten(cause) => Err(StoreError::VersionWrite { version, cause }),
        StepOutcome::NotCommitted(cause) => Err(StoreError::Transaction { version, cause }),
    }
}

/// Turns what the version query returned into the store's version.
pub fn version_read(queried: Result<u32, rusqlite::Error>) -> (result: Result<u32, StoreError>)
    ensures
        result == match queried {
            Ok(version) => Ok::<u32, StoreError>(version),
            Err(cause) => Err(StoreError::VersionRead { cause }),
        },
{
    match queried {
        Ok(version) => Ok(version),
        Err(cause) => Err(StoreError::VersionRead { cause }),
    }
}

/// The statement that reads the schema version.
pub fn version_query() -> (statement: &'static str)
    ensures
        statement@ == "PRAGMA user_version"@,
{
    "PRAGMA user_version"
}

/// Reads the schema version of the store.
pub fn current_version(conn: &rusqlite::Connection) -> (result: Result<u32, StoreError>)
    ensures
        result matches Err(e) ==> e is VersionRead,
{
    version_read(query_u32(conn, version_query()))
}

/// Runs one script and the write of its version in one transaction.
fn run_step(conn: &mut rusqlite::Connection, script: &MigrationScript) -> (outcome: StepOutcome) {
    let tx = match begin(conn) {
        Ok(tx) => tx,
        Err(cause) => {
            return StepOutcome::NotStarted(cause);
        },
    };
    match execute_batch(connection_of(&tx), script.body.as_str()) {
        Ok(_) => {},
        Err(cause) => {
            let undo = rollback(tx);
            return StepOutcome::ScriptFailed { cause, undo };
        },
    }
    let statement = version_statement(script.version);
    match execute_batch(connection_of(&tx), statement.as_str()) {
        Ok(_) => {},
        Err(cause) => {
            return StepOutcome::VersionNotWritten(cause);
        },
    }
    match commit(tx) {
        Ok(_) => StepOutcome::Committed,
        Err(cause) => StepOutcome::NotCommitted(cause),
    }
}

/// What a run did.
#[derive(Debug)]
pub struct MigrationReport {
    /// The version the store was at when the run began.
    pub start: u32,
    /// The versions of the scripts the run committed, in the order it
    /// committed them.
    pub applied: Vec<u32>,
    /// The failure that ended the run, if one did.
    pub failure: Option<StoreError>,
}

impl MigrationReport {
    /// The version the run left the store at: that of the last script it
    /// committed, or the one it began at.
    pub open spec fn reached(self) -> u32 {
        if self.applied@.len() == 0 {
            self.start
        } else {
            self.applied@.last()
        }
    }

    /// Whether this is the report of a run over `scripts` against a store
    /// at `current`: the run committed the pending scripts in order up to
    /// the first failure, which belongs to the pending script after the last
    /// one committed; without a failure it committed them all.
    pub open spec fn describes_run(self, scripts: Seq<ScriptModel>, current: u32) -> bool {
        let due = pending(scripts, current);
        let count = self.applied@.len() as int;
        &&& self.start == current
        &&& count <= due.len()
        &&& self.applied@ == versions(due).take(count)
        &&& match self.failure {
            None => count == due.len(),
            Some(e) => count < due.len() && e.script_version() == Some(due[count].version),
        }
    }

    /// The report of a run says where the run left the store.
    pub proof fn lemma_reached(self, scripts: Seq<ScriptModel>, current: u32)
        requires
            self.describes_run(scripts, current),
        ensures
            self.reached() == version_reached(scripts, current, self.applied@.len() as int),
            self.failure is None ==> self.reached() == target_version(scripts, current),
    {
    }

    /// Running again after a run that did not fail does nothing: the second
    /// run commits no script, does not fail, and leaves the store at the
    /// version the first run reached.
    pub proof fn lemma_second_run_is_idle(
        self,
        second: MigrationReport,
        scripts: Seq<ScriptModel>,
        current: u32,
    )
        requires
            is_ordered(scripts),
            self.describes_run(scripts, current),
            self.failure is None,
            second.describes_run(scripts, self.reached()),
        ensures
            second.applied@.len() == 0,
            second.failure is None,
            second.reached() == self.reached(),
    {
        self.lemma_reached(scripts, current);
        lemma_rerun_applies_nothing(scripts, current);
    }

    /// A run that failed left the store at the version of the last script
    /// it committed, which is not above the version of the script that
    /// failed, and no script that it committed lies above that version.
    pub proof fn lemma_failure_stops_the_run(self, scripts: Seq<ScriptModel>, current: u32)
        requires
            is_ordered(scripts),
            self.describes_run(scripts, current),
            self.failure is Some,
        ensures
            self.failure->0.script_version() is Some,
            current <= self.reached() <= self.failure->0.script_version()->0,
            forall|k: int|
                0 <= k < self.applied@.len() ==> (#[trigger] self.applied@[k]) <= self.reached(),
    {
        let due = pending(scripts, current);
        let count = self.applied@.len() as int;
        lemma_pending_members(scripts, current);
        lemma_pending_keeps_order(scripts, current);
        self.lemma_reached(scripts, current);
        if count > 0 {
            lemma_ordered_versions_ascend(due, count - 1, count);
        }
        assert forall|k: int| 0 <= k < count implies (#[trigger] self.applied@[k])
            <= self.reached() by {
            assert(self.applied@[k] == due[k].version);
            lemma_ordered_versions_ascend(due, k, count - 1);
        }
    }

    /// The version the run left the store at.
    pub fn version(&self) -> (version: u32)
        ensures
            version == self.reached(),
    {
        let n = self.applied.len();
        if n == 0 {
            self.start
        } else {
            self.applied[n - 1]
        }
    }

    /// The version reached if nothing failed, else the failure.
    pub fn into_result(self) -> (result: Result<u32, StoreError>)
        ensures
            result == match self.failure {
                None => Ok::<u32, StoreError>(self.reached()),
                Some(e) => Err(e),
            },
    {
        let version = self.version();
        match self.failure {
            None => Ok(version),
            Some(e) => Err(e),
        }
    }
}

/// Applies to a store at version `current` the scripts above that version,
/// in ascending order, each in a transaction of its own, and stops at the
/// first that fails. The scripts may come in any order; they are put in the
/// order of application first.
pub fn apply(conn: &mut rusqlite::Connection, scripts: Vec<MigrationScript>, current: u32) -> (report:
    MigrationReport)
    ensures
        report.describes_run(in_order(models(scripts@)), current),
{
    let ordered = order(scripts);
    apply_in_order(conn, &ordered, current)
}

/// Applies scripts that stand in the order of application, one after the
/// other as they stand.
fn apply_in_order(
    conn: &mut rusqlite::Connection,
    scripts: &Vec<MigrationScript>,
    current: u32,
) -> (report: MigrationReport)
    requires
        is_ordered(models(scripts@)),
    ensures
        report.describes_run(models(scripts@), current),
{
    let ghost all = models(scripts@);
    let mut applied: Vec<u32> = Vec::new();
    let mut i: usize = 0;
    assert(all.take(0) =~= Seq::<ScriptModel>::empty());
    assert(pending(all.take(0), current) =~= Seq::<ScriptModel>::empty()) by {
        lemma_pending_members(all.take(0), current);
    }
    while i < scripts.len()
        invariant
            i <= scripts.len(),
            all == models(scripts@),
            applied@ == versions(pending(all.take(i as int), current)),
        decreases scripts.len() - i,
    {
        let script = &scripts[i];
        proof {
            lemma_pending_split(all, current, i as int);
            assert(all[i as int] == script@);
        }
        if script.version > current {
            let step = settle(script.version, run_step(conn, script));
            match step {
                Ok(_) => {
                    applied.push(script.version);
                    assert(applied@ =~= versions(pending(all.take(i + 1), current)));
                },
                Err(e) => {
                    let report = MigrationReport { start: current, applied, failure: Some(e) };
                    proof {
                        let due = pending(all, current);
                        let count = report.applied@.len() as int;
                        assert(due[count] == script@);
                        assert(report.applied@ =~= versions(due).take(count));
                    }
                    return report;
                },
            }
        }
        i = i + 1;
    }
    assert(all.take(i as int) =~= all);
    let report = MigrationReport { start: current, applied, failure: None };
    assert(report.applied@ =~= versions(pending(all, current)).take(report.applied@.len() as int));
    report
}

/// Brings a store up to date and says what was done: reads the store's
/// version, puts the scripts in the order of application, and applies those
/// above that version.
///
/// Only a failure to read the version is returned as an error. A failure of
/// a script is part of the report, with what was committed before it.
pub fn migrate(conn: &mut rusqlite::Connection, scripts: Vec<MigrationScript>) -> (result: Result<
    MigrationReport,
    StoreError,
>)
    ensures
        match result {
            Ok(report) => report.describes_run(in_order(models(scripts@)), report.start),
            Err(e) => e is VersionRead,
        },
{
    let current = match current_version(conn) {
        Ok(version) => version,
        Err(e) => {
            return Err(e);
        },
    };
    Ok(apply(conn, scripts, current))
}

/// Brings a store up to date: reads its version, puts the scripts in the
/// order of application, and applies those above that version.
///
/// On success the store is at the version returned and no script lies above
/// it. A failure is that of reading the version, or belongs to one of the
/// scripts.
pub fn run_migrations(conn: &mut rusqlite::Connection, scripts: Vec<MigrationScript>) -> (result:
    Result<u32, StoreError>)
    ensures
        match result {
            Ok(version) => forall|i: int|
                0 <= i < scripts@.len() ==> (#[trigger] scripts@[i]).version <= version,
            Err(e) => e is VersionRead || exists|i: int|
                0 <= i < scripts@.len() && e.script_version() == Some(
                    (#[trigger] scripts@[i]).version,
                ),
        },
{
    let ghost given = models(scripts@);
    let report = match migrate(conn, scripts) {
        Ok(report) => report,
        Err(e) => {
            return Err(e);
        },
    };
    proof {
        broadcast use group_to_multiset_ensures;

        let sorted = in_order(given);
        lemma_in_order(given);
        report.lemma_reached(sorted, report.start);
        lemma_target_is_highest(sorted, report.start);
        lemma_pending_members(sorted, report.start);
        if report.failure is None {
            assert forall|i: int| 0 <= i < scripts@.len() implies (#[trigger] scripts@[i]).version
                <= report.reached() by {
                assert(given[i] == scripts@[i]@);
                assert(given.contains(given[i]));
                assert(sorted.to_multiset().count(given[i]) > 0);
                assert(sorted.contains(given[i]));
            }
        } else {
            let culprit = pending(sorted, report.start)[report.applied@.len() as int];
            assert(sorted.contains(culprit));
            assert(given.to_multiset().count(culprit) > 0);
            assert(given.contains(culprit));
            let w = choose|w: int| 0 <= w < given.len() && given[w] == culprit;
            assert(scripts@[w].version == culprit.version);
        }
    }
    report.into_result()
}

} // verus!
