//! Trusted boundary around the SQLite driver.
//!
//! Everything the store does on disk goes through the handful of wrappers
//! here; each one names the `rusqlite` function it relies on. The results of
//! these calls depend on the state of the database file, so their contracts
//! state only what holds of every outcome, and the verified code above them
//! takes the returned plain values and does the rest.

use vstd::prelude::*;

verus! {

/// Error raised by the persistence layer.
#[derive(Clone, Debug, PartialEq, Eq, Structural)]
pub enum DbError {
    /// The underlying SQLite call failed.
    Sqlite,
    /// A row held a value that the record type cannot decode.
    Decode,
    /// A lookup matched no row.
    NotFound,
    /// The operation makes no sense for the record type.
    Unsupported,
}

#[verifier::external_type_specification]
#[verifier::external_body]
pub struct ExConnection(rusqlite::Connection);

#[verifier::external_type_specification]
#[verifier::external_body]
pub struct ExRusqliteError(rusqlite::Error);

impl From<rusqlite::Error> for DbError {
    /// Every driver failure maps to the one driver-error value.
    fn from(e: rusqlite::Error) -> (r: DbError)
        ensures
            r == DbError::Sqlite,
    {
        DbError::Sqlite
    }
}

impl vstd::std_specs::convert::FromSpecImpl<rusqlite::Error> for DbError {
    open spec fn obeys_from_spec() -> bool {
        true
    }

    open spec fn from_spec(e: rusqlite::Error) -> DbError {
        DbError::Sqlite
    }
}

#[verifier::external_type_specification]
#[verifier::external_body]
pub struct ExRow<'a>(rusqlite::Row<'a>);

/// Relies on `rusqlite::Connection::open`: opens (creating if absent) the
/// database file at `path`; whether it succeeds depends on the file system.
/// Every driver failure comes back as the one driver-error value.
#[verifier::external_body]
pub(crate) fn open_connection(path: &str) -> (r: Result<rusqlite::Connection, DbError>)
    ensures
        r matches Err(e) ==> e == DbError::Sqlite,
{
    rusqlite::Connection::open(path).map_err(|_| DbError::Sqlite)
}

/// Relies on `rusqlite::Connection::execute`: runs one SQL statement with the
/// given positional text parameters and reports how many rows it changed.
/// What it returns depends on the database file; every driver failure comes
/// back as the one driver-error value.
#[verifier::external_body]
pub(crate) fn execute_sql(
    conn: &rusqlite::Connection,
    sql: &str,
    params: &Vec<String>,
) -> (r: Result<usize, DbError>)
    ensures
        r matches Err(e) ==> e == DbError::Sqlite,
{
    conn.execute(sql, rusqlite::params_from_iter(params.iter()))
        .map_err(|_| DbError::Sqlite)
}

/// Relies on `rusqlite::Row::get_ref`: one column of a result row as plain
/// text — text as itself, integers in decimal, nulls empty; any other
/// storage class is refused. What comes back depends on the database file.
#[verifier::external_body]
fn cell_text(row: &rusqlite::Row, i: usize) -> (r: Result<String, DbError>)
{
    match row.get_ref(i) {
        Ok(rusqlite::types::ValueRef::Null) => Ok(String::new()),
        Ok(rusqlite::types::ValueRef::Integer(n)) => Ok(n.to_string()),
        Ok(rusqlite::types::ValueRef::Text(t)) => match core::str::from_utf8(t) {
            Ok(s) => Ok(s.to_owned()),
            Err(_) => Err(DbError::Decode),
        },
        Ok(_) => Err(DbError::Decode),
        Err(_) => Err(DbError::Sqlite),
    }
}

/// The first `ncols` columns of a result row, as plain text.
pub fn row_texts(row: &rusqlite::Row, ncols: usize) -> (r: Result<Vec<String>, DbError>)
    ensures
        r matches Ok(v) ==> v@.len() == ncols,
{
    let mut out: Vec<String> = Vec::new();
    let mut i: usize = 0;
    while i < ncols
        invariant
            out@.len() == i,
            i <= ncols,
        decreases ncols - i,
    {
        match cell_text(row, i) {
            Ok(s) => {
                out.push(s);
            },
            Err(e) => {
                return Err(e);
            },
        }
        i = i + 1;
    }
    Ok(out)
}

/// Relies on `rusqlite::Connection::prepare` and
/// `rusqlite::Statement::query_and_then`: runs the query with the given
/// positional text parameters and hands back each resulting row's first
/// `ncols` columns, read through the verified `row_texts`. Every returned
/// row therefore holds exactly `ncols` entries; what they hold depends on
/// the database file, so nothing more is claimed.
#[verifier::external_body]
pub(crate) fn query_strings(
    conn: &rusqlite::Connection,
    sql: &str,
    params: &Vec<String>,
    ncols: usize,
) -> (r: Result<Vec<Vec<String>>, DbError>)
    ensures
        r matches Ok(rows) ==> forall|i: int|
            0 <= i < rows@.len() ==> (#[trigger] rows@[i])@.len() == ncols,
{
    let mut stmt = conn.prepare(sql)?;
    let rows = stmt.query_and_then(
        rusqlite::params_from_iter(params.iter()),
        |row| row_texts(row, ncols),
    )?;
    rows.collect()
}

} // verus!
