//! The mapping in an embedded SQL database: one table of codes and URLs,
//! with the code as its primary key.

use crate::sqlite::{
    execute_pair, execute_statement, open_database, prepare_cached, query_count, query_text,
    update_pragma,
};
use crate::storage::{Error, Storage};
use rusqlite::Connection;
use vstd::prelude::*;

verus! {

/// Extended result code with which the database reports a violated primary
/// key.
pub const PRIMARY_KEY_VIOLATION: i32 = 1555;

/// The file of the database.
pub const DATABASE_PATH: &'static str = "./data/db.sqlite";

/// The statements that the backend runs.
pub const CREATE_TABLE: &'static str =
    "CREATE TABLE IF NOT EXISTS urls (key TEXT PRIMARY KEY, url TEXT)";

pub const SELECT_URL: &'static str = "SELECT url FROM urls WHERE key = ?1";

pub const INSERT_URL: &'static str = "INSERT INTO urls (key, url) VALUES (?1, ?2)";

pub const COUNT_KEYS: &'static str = "SELECT COUNT(*) FROM urls";

/// The mapping in a database file. The file may be written by others, so the
/// backend is not exact: its answers are those of the database.
pub struct SqliteStorage {
    connection: Connection,
}

impl SqliteStorage {
    /// Opens the database at `DATABASE_PATH`. See `open`.
    pub fn new() -> (opened: Result<SqliteStorage, Error>)
        ensures
            opened matches Err(error) ==> error == Error::GenericError,
    {
        SqliteStorage::open(DATABASE_PATH)
    }

    /// Opens the database at `path`, sets it up for write-ahead logging, and
    /// creates the table where it is missing. Whether that succeeds is the
    /// database's to say. Any failure on the way is reported as
    /// `GenericError`: no key is written here, so none can be taken.
    pub fn open(path: &str) -> (opened: Result<SqliteStorage, Error>)
        ensures
            opened matches Err(error) ==> error == Error::GenericError,
    {
        let connection = match open_database(path) {
            Some(connection) => connection,
            None => {
                return Err(Error::GenericError);
            },
        };
        if !update_pragma(&connection, "journal_mode", "WAL") {
            return Err(Error::GenericError);
        }
        if !update_pragma(&connection, "synchronous", "NORMAL") {
            return Err(Error::GenericError);
        }
        if execute_statement(&connection, CREATE_TABLE).is_none() {
            return Err(Error::GenericError);
        }
        Ok(SqliteStorage { connection })
    }
}

/// What a failed write means, by the extended result code of the failure
/// where the database reported one: a violated primary key is a taken code,
/// anything else a failure of the backend.
pub open spec fn failure_of(code: Option<i32>) -> Error {
    if code == Some(PRIMARY_KEY_VIOLATION) {
        Error::DuplicateKey
    } else {
        Error::GenericError
    }
}

/// Tells a taken key apart from every other failure of a write.
pub fn classify_failure(code: Option<i32>) -> (error: Error)
    ensures
        error == failure_of(code),
{
    match code {
        Some(extended) => if extended == PRIMARY_KEY_VIOLATION {
            Error::DuplicateKey
        } else {
            Error::GenericError
        },
        None => Error::GenericError,
    }
}

/// What the database's answer to the insert means for the write: it is
/// committed where the statement ran, whatever number of rows it reports, and
/// refused with the error that the failure stands for otherwise.
pub open spec fn outcome_of_write(executed: Result<usize, Option<i32>>) -> Result<(), Error> {
    match executed {
        Ok(_) => Ok(()),
        Err(code) => Err(failure_of(code)),
    }
}

/// The result of a write, for the database's answer to the insert.
pub fn write_outcome(executed: Result<usize, Option<i32>>) -> (written: Result<(), Error>)
    ensures
        written == outcome_of_write(executed),
{
    match executed {
        Ok(_) => Ok(()),
        Err(code) => Err(classify_failure(code)),
    }
}

/// The number of keys, for the database's answer to the count: the number it
/// reports, and zero where it reports none.
pub open spec fn count_of(counted: Option<u64>) -> u64 {
    match counted {
        Some(count) => count,
        None => 0,
    }
}

/// The number of keys, for the database's answer to the count.
pub fn count_outcome(counted: Option<u64>) -> (count: u64)
    ensures
        count == count_of(counted),
{
    match counted {
        Some(count) => count,
        None => 0,
    }
}

impl Storage for SqliteStorage {
    /// Runs `SELECT_URL` with `key` and returns the database's answer: the
    /// URL of the first row, or `None` where there is no row or the database
    /// fails.
    fn get(&self, key: &str) -> (found: Option<String>) {
        match prepare_cached(&self.connection, SELECT_URL) {
            Some(mut statement) => query_text(&mut statement, key),
            None => None,
        }
    }

    /// Runs `INSERT_URL` with `key` and `value`; the result is
    /// `write_outcome` of the database's answer, and `GenericError` where the
    /// statement could not be prepared.
    fn set(&mut self, key: &str, value: &str) -> (written: Result<(), Error>) {
        match prepare_cached(&self.connection, INSERT_URL) {
            Some(mut statement) => write_outcome(execute_pair(&mut statement, key, value)),
            None => Err(Error::GenericError),
        }
    }

    /// Runs `COUNT_KEYS`; the result is `count_outcome` of the database's
    /// answer.
    fn key_count(&self) -> (count: u64) {
        count_outcome(query_count(&self.connection, COUNT_KEYS))
    }
}

} // verus!
