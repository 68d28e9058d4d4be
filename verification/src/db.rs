use vstd::prelude::*;
use crate::schema::{ColumnInfo, SchemaError};

verus! {

#[verifier::external_type_specification]
#[verifier::external_body]
pub struct ExConnection(rusqlite::Connection);

#[verifier::external_type_specification]
#[verifier::external_body]
pub struct ExError(rusqlite::Error);

/// Relies on `rusqlite::Connection::open_with_flags` with
/// `SQLITE_OPEN_READ_ONLY`: opens the database file read-only, and
/// fails when the file does not exist, cannot be read, or is not a
/// valid database.
#[verifier::external_body]
pub(crate) fn open_db(path: &str) -> Result<rusqlite::Connection, rusqlite::Error> {
    rusqlite::Connection::open_with_flags(path, rusqlite::OpenFlags::SQLITE_OPEN_READ_ONLY)
}

/// Relies on `rusqlite`'s `Connection::prepare`, `Statement::query_map`
/// and `Row::get`, and on SQLite's `sqlite_master` catalog: the query
/// returns one row per table, in catalog order, whose column 0 is the
/// table's name.
#[verifier::external_body]
pub(crate) fn list_tables(conn: &rusqlite::Connection) -> Result<Vec<String>, rusqlite::Error> {
    let mut stmt = conn.prepare("SELECT name FROM sqlite_master WHERE type='table';")?;
    let rows = stmt.query_map([], |row| row.get(0))?;
    rows.collect()
}

/// Relies on `rusqlite`'s `Connection::prepare`, `Statement::query_map`
/// and `Row::get`, and on SQLite's `pragma_table_info`: the query
/// returns one row per column of the named table, in column ordinal
/// order, with the column's name at index 1 and its declared type
/// (empty for an untyped column) at index 2.
#[verifier::external_body]
pub(crate) fn table_columns(conn: &rusqlite::Connection, table: &str) -> Result<
    Vec<ColumnInfo>,
    rusqlite::Error,
> {
    let query = format!("SELECT * FROM pragma_table_info({table:?});");
    let mut stmt = conn.prepare(&query)?;
    let rows = stmt.query_map(
        [],
        |row| Ok(ColumnInfo { name: row.get(1)?, declared_type: row.get(2)? }),
    )?;
    rows.collect()
}

/// Relies on `rusqlite::Error`'s variants and on its `Display`
/// implementation: `InvalidColumnType`, `InvalidColumnIndex` and
/// `FromSqlConversionFailure` report a result row whose fields could
/// not be decoded, and every other variant reports a failure to
/// prepare or run the query itself; the message is the error's own.
#[verifier::external_body]
pub(crate) fn classify_read_error(e: rusqlite::Error) -> (r: SchemaError)
    ensures
        r is QueryError || r is RowDecodeError,
{
    let message = e.to_string();
    match e {
        rusqlite::Error::InvalidColumnType(..) => SchemaError::RowDecodeError(message),
        rusqlite::Error::InvalidColumnIndex(..) => SchemaError::RowDecodeError(message),
        rusqlite::Error::FromSqlConversionFailure(..) => SchemaError::RowDecodeError(message),
        _ => SchemaError::QueryError(message),
    }
}

/// Relies on `rusqlite::Error`'s `Display` implementation for the
/// human-readable message of a failure.
#[verifier::external_body]
pub(crate) fn error_message(e: &rusqlite::Error) -> String {
    e.to_string()
}

} // verus!
