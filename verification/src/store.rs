//! The SQLite store, as far as the library touches it.
//!
//! Everything here calls into `rusqlite` and is taken on trust. What a call
//! returns depends on the database behind the connection, so none of these
//! items promises anything about its result: the callers are verified for
//! every outcome.

use vstd::prelude::*;

verus! {

/// `rusqlite::Connection`: a connection to a store. It is handed on to the
/// calls below; the proofs see nothing inside it.
#[verifier::external_type_specification]
#[verifier::external_body]
pub struct ExConnection(rusqlite::Connection);

/// `rusqlite::Transaction`: an open transaction on a connection. The proofs
/// see nothing inside it.
#[verifier::external_type_specification]
#[verifier::external_body]
pub struct ExTransaction<'conn>(rusqlite::Transaction<'conn>);

/// `rusqlite::Error`: what a call into the store failed with. It is carried
/// inside the library's own errors; the proofs see nothing inside it.
#[verifier::external_type_specification]
#[verifier::external_body]
pub struct ExSqliteError(rusqlite::Error);

/// `rusqlite::Connection::open`: opens the database file at `path`,
/// creating it when it is absent. Nothing is claimed of the result.
#[verifier::external_body]
pub(crate) fn open(path: &std::path::PathBuf) -> (opened: Result<
    rusqlite::Connection,
    rusqlite::Error,
>) {
    rusqlite::Connection::open(path)
}

/// `rusqlite::Connection::execute_batch`: runs the statements of `sql` in
/// turn. Nothing is claimed of the result.
#[verifier::external_body]
pub(crate) fn execute_batch(conn: &rusqlite::Connection, sql: &str) -> (done: Result<
    (),
    rusqlite::Error,
>) {
    conn.execute_batch(sql)
}

/// `rusqlite::Connection::query_row` without parameters, reading the first
/// column of the first row as an unsigned integer. Nothing is claimed of the
/// result.
#[verifier::external_body]
pub(crate) fn query_u32(conn: &rusqlite::Connection, sql: &str) -> (value: Result<
    u32,
    rusqlite::Error,
>) {
    conn.query_row(sql, [], |row| row.get(0))
}

/// `rusqlite::Connection::transaction`: opens a transaction that is rolled
/// back unless it is committed. Nothing is claimed of the result.
#[verifier::external_body]
pub(crate) fn begin<'conn>(conn: &'conn mut rusqlite::Connection) -> (tx: Result<
    rusqlite::Transaction<'conn>,
    rusqlite::Error,
>) {
    conn.transaction()
}

/// `Deref::deref` of `rusqlite::Transaction`: the connection the
/// transaction runs on.
#[verifier::external_body]
pub(crate) fn connection_of<'a>(tx: &'a rusqlite::Transaction<'_>) -> (conn:
    &'a rusqlite::Connection) {
    tx
}

/// `rusqlite::Transaction::commit`. Nothing is claimed of the result.
#[verifier::external_body]
pub(crate) fn commit(tx: rusqlite::Transaction<'_>) -> (done: Result<(), rusqlite::Error>) {
    tx.commit()
}

/// `rusqlite::Transaction::rollback`. Nothing is claimed of the result.
#[verifier::external_body]
pub(crate) fn rollback(tx: rusqlite::Transaction<'_>) -> (done: Result<(), rusqlite::Error>) {
    tx.rollback()
}

} // verus!
