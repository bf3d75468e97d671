//! The calls into `rusqlite`, the embedded SQL engine. Nothing is claimed
//! about what the database answers: that depends on the file behind the
//! connection.

use rusqlite::{CachedStatement, Connection};
use vstd::prelude::*;

verus! {

/// A connection of `rusqlite` to a database. Nothing is known of the
/// database behind it.
#[verifier::external_type_specification]
#[verifier::external_body]
pub struct ExConnection(rusqlite::Connection);

/// A prepared statement that goes back to the cache of its connection.
#[verifier::external_type_specification]
#[verifier::external_body]
pub struct ExCachedStatement<'conn>(rusqlite::CachedStatement<'conn>);

/// `Connection::open`: opens the database file at `path`, creating it where
/// there is none. Whether that succeeds depends on the file system; a
/// failure comes back as `None`.
#[verifier::external_body]
pub(crate) fn open_database(path: &str) -> (opened: Option<Connection>) {
    Connection::open(path).ok()
}

/// `Connection::pragma_update` on the main schema: sets the pragma `name` to
/// `value`. Returns whether the database accepted it.
#[verifier::external_body]
pub(crate) fn update_pragma(connection: &Connection, name: &str, value: &str) -> (updated: bool) {
    connection.pragma_update(None, name, value).is_ok()
}

/// `Connection::execute` without parameters: runs the one statement `sql`
/// and returns the number of rows it changed, or `None` where the database
/// refused it.
#[verifier::external_body]
pub(crate) fn execute_statement(connection: &Connection, sql: &str) -> (changed: Option<usize>) {
    connection.execute(sql, ()).ok()
}

/// `Connection::prepare_cached`: the prepared statement of `sql`, from the
/// connection's cache where it is there, or `None` where the database
/// refused the statement.
#[verifier::external_body]
pub(crate) fn prepare_cached<'conn>(connection: &'conn Connection, sql: &str) -> (prepared: Option<
    CachedStatement<'conn>,
>) {
    connection.prepare_cached(sql).ok()
}

/// `Statement::query_row` with the one parameter `key`: the first column of
/// the first row as text, or `None` where there is no row, the column is no
/// text, or the database fails.
#[verifier::external_body]
pub(crate) fn query_text(statement: &mut CachedStatement<'_>, key: &str) -> (text: Option<String>) {
    statement.query_row([key], |row| row.get::<usize, String>(0)).ok()
}

/// `Statement::execute` with the two parameters `key` and `value`: the
/// number of rows changed. A failure comes back as the extended result code
/// where the database itself reported it (the variant `SqliteFailure` of the
/// error), and as `None` for any other error.
#[verifier::external_body]
pub(crate) fn execute_pair(statement: &mut CachedStatement<'_>, key: &str, value: &str) -> (changed:
    Result<usize, Option<i32>>) {
    statement.execute((key, value)).map_err(
        |error|
            match error {
                rusqlite::Error::SqliteFailure(failure, _) => Some(failure.extended_code),
                _ => None,
            },
    )
}

/// `Connection::query_row` without parameters: the first column of the
/// first row as an unsigned number, or `None` where there is no row, the
/// column holds no such number, or the database fails.
#[verifier::external_body]
pub(crate) fn query_count(connection: &Connection, sql: &str) -> (count: Option<u64>) {
    connection.query_row(sql, (), |row| row.get::<usize, u64>(0)).ok()
}

} // verus!
