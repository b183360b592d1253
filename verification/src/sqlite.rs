//! The boundary to SQLite.
//!
//! Everything in this file is believed, not proved: each function hands its
//! arguments to `rusqlite` and hands back what came out. None of them
//! promises anything about the outcome, because what a statement returns
//! depends on the database file, which lives outside the program.

use crate::rows::SqlCell;
use vstd::prelude::*;

verus! {

#[verifier::external_type_specification]
#[verifier::external_body]
pub struct ExConnection(rusqlite::Connection);

#[verifier::external_type_specification]
#[verifier::external_body]
pub struct ExTransaction<'conn>(rusqlite::Transaction<'conn>);

#[verifier::external_type_specification]
#[verifier::external_body]
pub struct ExError(rusqlite::Error);

#[verifier::external_type_specification]
#[verifier::external_body]
pub struct ExValue(rusqlite::types::Value);

/// `rusqlite::Connection::open`: opens the database file at `path`, creating
/// it when it does not exist. Nothing is claimed of the outcome.
#[verifier::external_body]
pub(crate) fn open_connection(path: &str) -> (r: Result<rusqlite::Connection, rusqlite::Error>) {
    rusqlite::Connection::open(path)
}

/// `rusqlite::Connection::execute`: prepares `sql`, binds `args` to its
/// positional parameters in order and runs it. Nothing is claimed of the
/// outcome.
#[verifier::external_body]
pub(crate) fn execute(
    conn: &rusqlite::Connection,
    sql: &str,
    args: &Vec<rusqlite::types::Value>,
) -> (r: Result<usize, rusqlite::Error>) {
    conn.execute(sql, rusqlite::params_from_iter(args.iter()))
}

/// `rusqlite::Connection::last_insert_rowid`: the row id of the most recent
/// successful insert on this connection. Nothing is claimed of its value.
#[verifier::external_body]
pub(crate) fn last_insert_rowid(conn: &rusqlite::Connection) -> (id: i64) {
    conn.last_insert_rowid()
}

/// `rusqlite::Connection::prepare` and `rusqlite::Statement::query_map`:
/// runs the query `sql` with `args` bound in order and collects every row,
/// each as the values of its columns from left to right. Nothing is claimed
/// of the outcome.
#[verifier::external_body]
pub(crate) fn query(
    conn: &rusqlite::Connection,
    sql: &str,
    args: &Vec<rusqlite::types::Value>,
) -> (r: Result<Vec<Vec<rusqlite::types::Value>>, rusqlite::Error>) {
    let mut stmt = conn.prepare(sql)?;
    let width = stmt.column_count();
    let rows = stmt.query_map(rusqlite::params_from_iter(args.iter()), |row| {
        (0..width).map(|i| row.get(i)).collect()
    })?;
    rows.collect()
}

/// `rusqlite::Connection::transaction`: begins a transaction that rolls back
/// when it is dropped without a commit. Nothing is claimed of the outcome.
#[verifier::external_body]
pub(crate) fn begin<'a>(conn: &'a mut rusqlite::Connection) -> (r: Result<
    rusqlite::Transaction<'a>,
    rusqlite::Error,
>) {
    conn.transaction()
}

/// `Deref` of `rusqlite::Transaction`: the connection that the transaction
/// runs on.
#[verifier::external_body]
pub(crate) fn connection_of<'a, 'b>(tx: &'a rusqlite::Transaction<'b>) -> (conn:
    &'a rusqlite::Connection) {
    tx
}

/// `rusqlite::Transaction::commit`. Nothing is claimed of the outcome.
#[verifier::external_body]
pub(crate) fn commit<'a>(tx: rusqlite::Transaction<'a>) -> (r: Result<(), rusqlite::Error>) {
    tx.commit()
}

/// The variant `Integer` of `rusqlite::types::Value`.
#[verifier::external_body]
pub(crate) fn integer_value(n: i64) -> (v: rusqlite::types::Value) {
    rusqlite::types::Value::Integer(n)
}

/// The variant `Text` of `rusqlite::types::Value`.
#[verifier::external_body]
pub(crate) fn text_value(s: &str) -> (v: rusqlite::types::Value) {
    rusqlite::types::Value::Text(s.to_string())
}

/// Tells the variants of `rusqlite::types::Value` apart. Nothing is claimed
/// of the result.
#[verifier::external_body]
pub(crate) fn cell_of(v: &rusqlite::types::Value) -> (cell: SqlCell) {
    match v {
        rusqlite::types::Value::Null => SqlCell::Null,
        rusqlite::types::Value::Integer(n) => SqlCell::Integer(*n),
        rusqlite::types::Value::Real(_) => SqlCell::Other,
        rusqlite::types::Value::Text(s) => SqlCell::Text(s.clone()),
        rusqlite::types::Value::Blob(_) => SqlCell::Other,
    }
}

/// `Display` of `rusqlite::Error`: the error in words. Nothing is claimed of
/// the text.
#[verifier::external_body]
pub(crate) fn error_text(e: &rusqlite::Error) -> (text: String) {
    format!("{}", e)
}

} // verus!
