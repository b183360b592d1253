//! The persistent store: applications and per-day key counters in SQLite.
//!
//! The store sends the statements of [`crate::statements`] and reads the
//! answers with [`crate::rows`]. What SQLite does with a statement is
//! outside the proof.

use crate::keyboard::{events_of, CaptureEvent, KeyStat};
use crate::rows::{
    app_id_from_rows, apps_from_rows, date_range_from_rows, ranking_from_rows,
    stats_by_day_from_rows, total_from_rows, SqlCell,
};
use crate::sqlite::{
    begin, cell_of, commit, connection_of, error_text, execute, integer_value, last_insert_rowid,
    open_connection, query, text_value,
};
use crate::statements::{
    app_insert_statement, app_lookup_query, apps_query, date_range_query, key_ranking_query,
    key_stats_by_day_query, schema_statements, total_key_count_query, upsert_statement, Query,
    SqlArg,
};
use vstd::prelude::*;

verus! {

/// One line of the key ranking: a key and how often it was released.
#[derive(Debug, Clone, PartialEq, Eq)]
pub struct KeyRankingItem {
    pub key_code: String,
    pub count: i64,
}

/// A known application.
#[derive(Debug, Clone, PartialEq, Eq)]
pub struct AppInfo {
    pub id: i64,
    pub name: String,
    pub bundle_id: String,
}

/// The releases of one key on one day.
#[derive(Debug, Clone, PartialEq, Eq)]
pub struct KeyStatsByDay {
    pub ts_day: i64,
    pub key_code: String,
    pub count: i64,
}

/// The first and the last day that the store has counters for.
#[derive(Debug, Clone, Copy, PartialEq, Eq)]
pub struct DateRange {
    pub min: i64,
    pub max: i64,
}

/// Why the store could not answer.
#[derive(Debug, Clone, PartialEq, Eq)]
pub enum StoreError {
    /// SQLite refused or failed; `message` is its own account.
    Sqlite { message: String },
    /// A query that always has a row came back without one.
    NoRows,
    /// A row came back with a column of another type than was asked for.
    Malformed,
}

impl StoreError {
    /// The text of the error.
    pub open spec fn text(self) -> Seq<char> {
        match self {
            StoreError::Sqlite { message } => message@,
            StoreError::NoRows => "Query returned no rows"@,
            StoreError::Malformed => "Invalid column type"@,
        }
    }

    /// The error in words.
    pub fn to_string(&self) -> (s: String)
        ensures
            s@ == self.text(),
    {
        match self {
            StoreError::Sqlite { message } => message.clone(),
            StoreError::NoRows => String::from_str("Query returned no rows"),
            StoreError::Malformed => String::from_str("Invalid column type"),
        }
    }
}

/// The store: one connection to the database file, and a record of what
/// the file has taken in through it.
pub struct Database {
    conn: rusqlite::Connection,
    acknowledged: Ghost<Seq<CaptureEvent>>,
}

/// The library's error for an error of SQLite, told in `message`.
fn store_error(message: String) -> (error: StoreError)
    ensures
        error == (StoreError::Sqlite { message }),
{
    StoreError::Sqlite { message }
}

/// The arguments as values that SQLite binds, in the same order.
fn values_of(args: &Vec<SqlArg>) -> (values: Vec<rusqlite::types::Value>)
    ensures
        values@.len() == args@.len(),
{
    let mut values: Vec<rusqlite::types::Value> = Vec::new();
    let mut i: usize = 0;
    while i < args.len()
        invariant
            i <= args.len(),
            values@.len() == i,
        decreases args.len() - i,
    {
        match &args[i] {
            SqlArg::Integer(n) => values.push(integer_value(*n)),
            SqlArg::Text(s) => values.push(text_value(s.as_str())),
        }
        i += 1;
    }
    values
}

/// The rows of an answer as cells, row by row and column by column.
fn cells_of(rows: &Vec<Vec<rusqlite::types::Value>>) -> (cells: Vec<Vec<SqlCell>>)
    ensures
        cells@.len() == rows@.len(),
        forall|i: int| 0 <= i < rows@.len() ==> (#[trigger] cells@[i])@.len() == rows@[i]@.len(),
{
    let mut cells: Vec<Vec<SqlCell>> = Vec::new();
    let mut i: usize = 0;
    while i < rows.len()
        invariant
            i <= rows.len(),
            cells@.len() == i,
            forall|k: int| 0 <= k < i ==> (#[trigger] cells@[k])@.len() == rows@[k]@.len(),
        decreases rows.len() - i,
    {
        let row = &rows[i];
        let mut line: Vec<SqlCell> = Vec::new();
        let mut j: usize = 0;
        while j < row.len()
            invariant
                j <= row.len(),
                line@.len() == j,
            decreases row.len() - j,
        {
            line.push(cell_of(&row[j]));
            j += 1;
        }
        cells.push(line);
        i += 1;
    }
    cells
}

/// Sends the statement `q` over `conn`. The only error is SQLite's.
fn run(conn: &rusqlite::Connection, q: &Query) -> (r: Result<usize, StoreError>)
    ensures
        r matches Err(e) ==> e is Sqlite,
{
    let values = values_of(&q.args);
    match execute(conn, q.sql.as_str(), &values) {
        Ok(changed) => Ok(changed),
        Err(e) => Err(store_error(error_text(&e))),
    }
}

/// Sends the query `q` over `conn` and reads the rows of the answer. The
/// only error is SQLite's.
fn ask(conn: &rusqlite::Connection, q: &Query) -> (r: Result<Vec<Vec<SqlCell>>, StoreError>)
    ensures
        r matches Err(e) ==> e is Sqlite,
{
    let values = values_of(&q.args);
    match query(conn, q.sql.as_str(), &values) {
        Ok(rows) => Ok(cells_of(&rows)),
        Err(e) => Err(store_error(error_text(&e))),
    }
}

impl Database {
    /// The key releases that the database file has taken in through this
    /// store, in the order in which it took them: those of every batch
    /// whose transaction SQLite committed. Where SQLite does what the
    /// statements say, a counter in the file has grown by one for each of
    /// them that falls in its bucket.
    pub closed spec fn acknowledged(&self) -> Seq<CaptureEvent> {
        self.acknowledged@
    }

    /// Opens the database file at `db_path`, creating the file and the
    /// tables that are not there yet.
    pub fn new(db_path: &str) -> (r: Result<Database, StoreError>)
        ensures
            r matches Ok(db) ==> db.acknowledged() == Seq::<CaptureEvent>::empty(),
            r matches Err(e) ==> e is Sqlite,
    {
        let conn = match open_connection(db_path) {
            Ok(conn) => conn,
            Err(e) => {
                return Err(store_error(error_text(&e)));
            },
        };
        let db = Database { conn, acknowledged: Ghost(Seq::empty()) };
        match db.init() {
            Ok(()) => Ok(db),
            Err(e) => Err(e),
        }
    }

    /// Creates the tables that are not there yet.
    fn init(&self) -> (r: Result<(), StoreError>)
        ensures
            r matches Err(e) ==> e is Sqlite,
    {
        let statements = schema_statements();
        let mut i: usize = 0;
        while i < statements.len()
            invariant
                i <= statements.len(),
            decreases statements.len() - i,
        {
            match run(&self.conn, &statements[i]) {
                Ok(_) => {},
                Err(e) => {
                    return Err(e);
                },
            }
            i += 1;
        }
        Ok(())
    }

    /// The id of the application with the identifier `bundle_id`. Where the
    /// lookup finds none, the application is added under `name` and the id
    /// of the new row is returned. The counters are left alone.
    pub fn get_or_create_app(&mut self, name: &str, bundle_id: &str) -> (r: Result<i64, StoreError>)
        ensures
            final(self).acknowledged() == old(self).acknowledged(),
            r matches Err(e) ==> e is Sqlite,
    {
        let found = match ask(&self.conn, &app_lookup_query(bundle_id)) {
            Ok(rows) => app_id_from_rows(&rows),
            Err(_) => None,
        };
        match found {
            Some(id) => Ok(id),
            None => match run(&self.conn, &app_insert_statement(name, bundle_id)) {
                Ok(_) => Ok(last_insert_rowid(&self.conn)),
                Err(e) => Err(e),
            },
        }
    }

    /// Counts every key release of `stats`, one statement each in the order
    /// given, all in one transaction. On `Ok` SQLite has committed the
    /// transaction; on `Err` a statement or the commit failed and the
    /// transaction was given up, so that none of `stats` is counted.
    pub fn batch_insert_key_stats(&mut self, stats: &[KeyStat]) -> (r: Result<(), StoreError>)
        ensures
            r is Ok ==> final(self).acknowledged() == old(self).acknowledged() + events_of(stats@),
            r matches Err(e) ==> e is Sqlite && final(self).acknowledged() == old(
                self,
            ).acknowledged(),
    {
        let tx = match begin(&mut self.conn) {
            Ok(tx) => tx,
            Err(e) => {
                return Err(store_error(error_text(&e)));
            },
        };
        let mut i: usize = 0;
        while i < stats.len()
            invariant
                i <= stats.len(),
                self.acknowledged == old(self).acknowledged,
            decreases stats.len() - i,
        {
            match run(connection_of(&tx), &upsert_statement(&stats[i])) {
                Ok(_) => {},
                Err(e) => {
                    return Err(e);
                },
            }
            i += 1;
        }
        match commit(tx) {
            Ok(()) => {
                proof {
                    self.acknowledged@ = self.acknowledged@ + events_of(stats@);
                }
                Ok(())
            },
            Err(e) => Err(store_error(error_text(&e))),
        }
    }

    /// The keys with their total counts, the most used first, over the
    /// counters that the filters admit, at most `limit` of them.
    pub fn get_key_ranking(
        &self,
        start_date: Option<i64>,
        end_date: Option<i64>,
        app_id: Option<i64>,
        limit: Option<i64>,
    ) -> (r: Result<Vec<KeyRankingItem>, StoreError>)
        ensures
            r matches Err(e) ==> e is Sqlite || e is Malformed,
    {
        match ask(&self.conn, &key_ranking_query(start_date, end_date, app_id, limit)) {
            Ok(rows) => ranking_from_rows(&rows),
            Err(e) => Err(e),
        }
    }

    /// The known applications, by name.
    pub fn get_apps(&self) -> (r: Result<Vec<AppInfo>, StoreError>)
        ensures
            r matches Err(e) ==> e is Sqlite || e is Malformed,
    {
        match ask(&self.conn, &apps_query()) {
            Ok(rows) => apps_from_rows(&rows),
            Err(e) => Err(e),
        }
    }

    /// The total counts by day and key over the counters that the filters
    /// admit, by day and within a day the most used key first.
    pub fn get_key_stats_by_day(
        &self,
        start_date: Option<i64>,
        end_date: Option<i64>,
        app_id: Option<i64>,
    ) -> (r: Result<Vec<KeyStatsByDay>, StoreError>)
        ensures
            r matches Err(e) ==> e is Sqlite || e is Malformed,
    {
        match ask(&self.conn, &key_stats_by_day_query(start_date, end_date, app_id)) {
            Ok(rows) => stats_by_day_from_rows(&rows),
            Err(e) => Err(e),
        }
    }

    /// The sum of the counters that the filters admit; 0 where none does.
    pub fn get_total_key_count(
        &self,
        start_date: Option<i64>,
        end_date: Option<i64>,
        app_id: Option<i64>,
    ) -> (r: Result<i64, StoreError>) {
        match ask(&self.conn, &total_key_count_query(start_date, end_date, app_id)) {
            Ok(rows) => total_from_rows(&rows),
            Err(e) => Err(e),
        }
    }

    /// The first and the last day that have a counter; both 0 where there
    /// is no counter.
    pub fn get_date_range(&self) -> (r: Result<DateRange, StoreError>) {
        match ask(&self.conn, &date_range_query()) {
            Ok(rows) => date_range_from_rows(&rows),
            Err(e) => Err(e),
        }
    }
}

} // verus!
