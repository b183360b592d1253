//! The statements and queries that the store sends to SQLite: their text
//! and their arguments.

use crate::keyboard::{CaptureEvent, KeyStat};
use vstd::prelude::*;

verus! {

/// A value bound to a `?` of a statement.
#[derive(Debug, Clone, PartialEq, Eq)]
pub enum SqlArg {
    Integer(i64),
    Text(String),
}

/// What a [`SqlArg`] means.
pub enum SqlArgView {
    Integer(int),
    Text(Seq<char>),
}

impl View for SqlArg {
    type V = SqlArgView;

    open spec fn view(&self) -> SqlArgView {
        match self {
            SqlArg::Integer(n) => SqlArgView::Integer(*n as int),
            SqlArg::Text(s) => SqlArgView::Text(s@),
        }
    }
}

/// What a list of arguments means, in order.
pub open spec fn args_of(args: Seq<SqlArg>) -> Seq<SqlArgView> {
    args.map_values(|a: SqlArg| a@)
}

/// A statement or query, ready to be sent: its text and the values for its
/// `?` placeholders, in order.
#[derive(Debug, Clone, PartialEq, Eq)]
pub struct Query {
    pub sql: String,
    pub args: Vec<SqlArg>,
}

impl Query {
    /// Whether the query has the text `sql` and the arguments `args`.
    pub open spec fn sends(self, sql: Seq<char>, args: Seq<SqlArgView>) -> bool {
        self.sql@ == sql && args_of(self.args@) == args
    }
}

/// What a list of strings reads, in order.
pub open spec fn texts_of(parts: Seq<String>) -> Seq<Seq<char>> {
    parts.map_values(|s: String| s@)
}

/// `parts` written one after the other with `sep` between each two.
pub open spec fn joined(parts: Seq<Seq<char>>, sep: Seq<char>) -> Seq<char>
    decreases parts.len(),
{
    if parts.len() == 0 {
        Seq::empty()
    } else if parts.len() == 1 {
        parts[0]
    } else {
        joined(parts.drop_last(), sep) + sep + parts.last()
    }
}

/// The conditions that the filters of a report put on a counter, in the
/// order start day, end day, application; a filter that is `None` puts none.
pub open spec fn conditions(start_date: Option<i64>, end_date: Option<i64>, app_id: Option<i64>) -> Seq<
    Seq<char>,
> {
    let from_start: Seq<Seq<char>> = if start_date is Some {
        seq!["ts_day >= ?"@]
    } else {
        seq![]
    };
    let to_end = if end_date is Some {
        from_start.push("ts_day <= ?"@)
    } else {
        from_start
    };
    if app_id is Some {
        to_end.push("app_id = ?"@)
    } else {
        to_end
    }
}

/// The values for the placeholders of [`conditions`], in the same order.
pub open spec fn filter_args(
    start_date: Option<i64>,
    end_date: Option<i64>,
    app_id: Option<i64>,
) -> Seq<SqlArgView> {
    let from_start: Seq<SqlArgView> = match start_date {
        Some(day) => seq![SqlArgView::Integer(day as int)],
        None => seq![],
    };
    let to_end = match end_date {
        Some(day) => from_start.push(SqlArgView::Integer(day as int)),
        None => from_start,
    };
    match app_id {
        Some(id) => to_end.push(SqlArgView::Integer(id as int)),
        None => to_end,
    }
}

/// The `WHERE` clause of a report: empty without a filter, else the
/// conditions joined by `AND`.
pub open spec fn where_clause(
    start_date: Option<i64>,
    end_date: Option<i64>,
    app_id: Option<i64>,
) -> Seq<char> {
    let parts = conditions(start_date, end_date, app_id);
    if parts.len() == 0 {
        Seq::empty()
    } else {
        " WHERE "@ + joined(parts, " AND "@)
    }
}

/// The text of the ranking query.
pub open spec fn key_ranking_sql(
    start_date: Option<i64>,
    end_date: Option<i64>,
    app_id: Option<i64>,
    limit: Option<i64>,
) -> Seq<char> {
    "SELECT key_code, SUM(count) as total_count FROM key_stat"@ + where_clause(
        start_date,
        end_date,
        app_id,
    ) + " GROUP BY key_code ORDER BY total_count DESC"@ + (if limit is Some {
        " LIMIT ?"@
    } else {
        Seq::empty()
    })
}

/// The arguments of the ranking query.
pub open spec fn key_ranking_args(
    start_date: Option<i64>,
    end_date: Option<i64>,
    app_id: Option<i64>,
    limit: Option<i64>,
) -> Seq<SqlArgView> {
    let filters = filter_args(start_date, end_date, app_id);
    match limit {
        Some(n) => filters.push(SqlArgView::Integer(n as int)),
        None => filters,
    }
}

/// The text of the query for the counters by day.
pub open spec fn key_stats_by_day_sql(
    start_date: Option<i64>,
    end_date: Option<i64>,
    app_id: Option<i64>,
) -> Seq<char> {
    "SELECT ts_day, key_code, SUM(count) as total_count FROM key_stat"@ + where_clause(
        start_date,
        end_date,
        app_id,
    ) + " GROUP BY ts_day, key_code ORDER BY ts_day, total_count DESC"@
}

/// The text of the query for the total count.
pub open spec fn total_key_count_sql(
    start_date: Option<i64>,
    end_date: Option<i64>,
    app_id: Option<i64>,
) -> Seq<char> {
    "SELECT SUM(count) FROM key_stat"@ + where_clause(start_date, end_date, app_id)
}

/// `parts` written one after the other with `sep` between each two.
pub fn join(parts: &Vec<String>, sep: &str) -> (text: String)
    ensures
        text@ == joined(texts_of(parts@), sep@),
{
    let mut text = String::new();
    let mut i: usize = 0;
    while i < parts.len()
        invariant
            i <= parts.len(),
            text@ == joined(texts_of(parts@).take(i as int), sep@),
        decreases parts.len() - i,
    {
        if i > 0 {
            text.append(sep);
        }
        text.append(parts[i].as_str());
        proof {
            let all = texts_of(parts@);
            assert(all.take(i + 1).drop_last() == all.take(i as int));
        }
        i += 1;
    }
    assert(texts_of(parts@).take(parts.len() as int) == texts_of(parts@));
    text
}

/// The conditions and their arguments for the given filters.
fn filter_parts(start_date: Option<i64>, end_date: Option<i64>, app_id: Option<i64>) -> (r: (
    Vec<String>,
    Vec<SqlArg>,
))
    ensures
        texts_of(r.0@) == conditions(start_date, end_date, app_id),
        args_of(r.1@) == filter_args(start_date, end_date, app_id),
{
    let mut parts: Vec<String> = Vec::new();
    let mut args: Vec<SqlArg> = Vec::new();
    if let Some(day) = start_date {
        parts.push(String::from_str("ts_day >= ?"));
        args.push(SqlArg::Integer(day));
    }
    if let Some(day) = end_date {
        parts.push(String::from_str("ts_day <= ?"));
        args.push(SqlArg::Integer(day));
    }
    if let Some(id) = app_id {
        parts.push(String::from_str("app_id = ?"));
        args.push(SqlArg::Integer(id));
    }
    (parts, args)
}

/// Appends the `WHERE` clause for `parts` to `sql`.
fn append_where(sql: &mut String, parts: &Vec<String>)
    ensures
        final(sql)@ == old(sql)@ + (if parts@.len() == 0 {
            Seq::<char>::empty()
        } else {
            " WHERE "@ + joined(texts_of(parts@), " AND "@)
        }),
{
    if parts.len() > 0 {
        sql.append(" WHERE ");
        let all = join(parts, " AND ");
        sql.append(all.as_str());
    }
}

/// The ranking query: the keys with their total counts, the most used
/// first, restricted by the filters that are given and cut off after
/// `limit` lines if there is one.
pub fn key_ranking_query(
    start_date: Option<i64>,
    end_date: Option<i64>,
    app_id: Option<i64>,
    limit: Option<i64>,
) -> (q: Query)
    ensures
        q.sends(
            key_ranking_sql(start_date, end_date, app_id, limit),
            key_ranking_args(start_date, end_date, app_id, limit),
        ),
{
    let (parts, mut args) = filter_parts(start_date, end_date, app_id);
    let mut sql = String::from_str("SELECT key_code, SUM(count) as total_count FROM key_stat");
    append_where(&mut sql, &parts);
    sql.append(" GROUP BY key_code ORDER BY total_count DESC");
    if let Some(n) = limit {
        let ghost before = args@;
        sql.append(" LIMIT ?");
        args.push(SqlArg::Integer(n));
        assert(args_of(args@) == args_of(before).push(SqlArgView::Integer(n as int)));
    }
    Query { sql, args }
}

/// The query for the counters by day: one line for each day and key, by
/// day and within a day the most used key first.
pub fn key_stats_by_day_query(
    start_date: Option<i64>,
    end_date: Option<i64>,
    app_id: Option<i64>,
) -> (q: Query)
    ensures
        q.sends(
            key_stats_by_day_sql(start_date, end_date, app_id),
            filter_args(start_date, end_date, app_id),
        ),
{
    let (parts, args) = filter_parts(start_date, end_date, app_id);
    let mut sql = String::from_str(
        "SELECT ts_day, key_code, SUM(count) as total_count FROM key_stat",
    );
    append_where(&mut sql, &parts);
    sql.append(" GROUP BY ts_day, key_code ORDER BY ts_day, total_count DESC");
    Query { sql, args }
}

/// The query for the total count under the given filters.
pub fn total_key_count_query(
    start_date: Option<i64>,
    end_date: Option<i64>,
    app_id: Option<i64>,
) -> (q: Query)
    ensures
        q.sends(
            total_key_count_sql(start_date, end_date, app_id),
            filter_args(start_date, end_date, app_id),
        ),
{
    let (parts, args) = filter_parts(start_date, end_date, app_id);
    let mut sql = String::from_str("SELECT SUM(count) FROM key_stat");
    append_where(&mut sql, &parts);
    Query { sql, args }
}

/// The statements that create the tables of the store unless they exist:
/// the applications, unique by identifier, and the counters, unique by
/// day, key and application.
pub open spec fn schema_sql() -> Seq<Seq<char>> {
    seq![
        "CREATE TABLE IF NOT EXISTS app (id INTEGER PRIMARY KEY, name TEXT NOT NULL, bundle_id TEXT NOT NULL UNIQUE)"@,
        "CREATE TABLE IF NOT EXISTS key_stat (ts_day INTEGER NOT NULL, key_code TEXT NOT NULL, app_id INTEGER NOT NULL, count INTEGER NOT NULL, PRIMARY KEY (ts_day, key_code, app_id), FOREIGN KEY (app_id) REFERENCES app(id))"@,
    ]
}

/// The statements that create the tables of the store, in the order in
/// which they are to be sent; none has an argument.
pub fn schema_statements() -> (statements: Vec<Query>)
    ensures
        statements@.len() == schema_sql().len(),
        forall|i: int|
            0 <= i < statements@.len() ==> (#[trigger] statements@[i]).sends(
                schema_sql()[i],
                Seq::empty(),
            ),
{
    let mut statements: Vec<Query> = Vec::new();
    statements.push(
        Query {
            sql: String::from_str(
                "CREATE TABLE IF NOT EXISTS app (id INTEGER PRIMARY KEY, name TEXT NOT NULL, bundle_id TEXT NOT NULL UNIQUE)",
            ),
            args: Vec::new(),
        },
    );
    statements.push(
        Query {
            sql: String::from_str(
                "CREATE TABLE IF NOT EXISTS key_stat (ts_day INTEGER NOT NULL, key_code TEXT NOT NULL, app_id INTEGER NOT NULL, count INTEGER NOT NULL, PRIMARY KEY (ts_day, key_code, app_id), FOREIGN KEY (app_id) REFERENCES app(id))",
            ),
            args: Vec::new(),
        },
    );
    assert(args_of(statements@[0].args@) == Seq::<SqlArgView>::empty());
    assert(args_of(statements@[1].args@) == Seq::<SqlArgView>::empty());
    statements
}

/// The text of the query for the first and the last day.
pub open spec fn date_range_sql() -> Seq<char> {
    "SELECT MIN(ts_day), MAX(ts_day) FROM key_stat"@
}

/// The text of the query for the known applications.
pub open spec fn apps_sql() -> Seq<char> {
    "SELECT id, name, bundle_id FROM app ORDER BY name"@
}

/// The text of the query for the id of an application.
pub open spec fn app_lookup_sql() -> Seq<char> {
    "SELECT id FROM app WHERE bundle_id = ?1"@
}

/// The text of the statement that adds an application.
pub open spec fn app_insert_sql() -> Seq<char> {
    "INSERT INTO app (name, bundle_id) VALUES (?1, ?2)"@
}

/// The text of the statement that counts one key release: it adds the
/// counter with the value 1, or adds 1 to the counter that is there.
pub open spec fn upsert_sql() -> Seq<char> {
    "INSERT INTO key_stat (ts_day, key_code, app_id, count) VALUES (?1, ?2, ?3, 1) ON CONFLICT(ts_day, key_code, app_id) DO UPDATE SET count = count + 1"@
}

/// The arguments of the statement that counts `event`.
pub open spec fn upsert_args(event: CaptureEvent) -> Seq<SqlArgView> {
    seq![
        SqlArgView::Integer(event.day),
        SqlArgView::Text(event.key),
        SqlArgView::Integer(event.app),
    ]
}

/// The query for the first and the last day that have a counter.
pub fn date_range_query() -> (q: Query)
    ensures
        q.sends(date_range_sql(), Seq::empty()),
{
    let q = Query {
        sql: String::from_str("SELECT MIN(ts_day), MAX(ts_day) FROM key_stat"),
        args: Vec::new(),
    };
    assert(args_of(q.args@) == Seq::<SqlArgView>::empty());
    q
}

/// The query for the known applications, by name.
pub fn apps_query() -> (q: Query)
    ensures
        q.sends(apps_sql(), Seq::empty()),
{
    let q = Query {
        sql: String::from_str("SELECT id, name, bundle_id FROM app ORDER BY name"),
        args: Vec::new(),
    };
    assert(args_of(q.args@) == Seq::<SqlArgView>::empty());
    q
}

/// The query for the id of the application with the identifier
/// `bundle_id`.
pub fn app_lookup_query(bundle_id: &str) -> (q: Query)
    ensures
        q.sends(app_lookup_sql(), seq![SqlArgView::Text(bundle_id@)]),
{
    let mut args: Vec<SqlArg> = Vec::new();
    args.push(SqlArg::Text(String::from_str(bundle_id)));
    assert(args_of(args@) == seq![SqlArgView::Text(bundle_id@)]);
    Query { sql: String::from_str("SELECT id FROM app WHERE bundle_id = ?1"), args }
}

/// The statement that adds the application `name` with the identifier
/// `bundle_id`.
pub fn app_insert_statement(name: &str, bundle_id: &str) -> (q: Query)
    ensures
        q.sends(app_insert_sql(), seq![SqlArgView::Text(name@), SqlArgView::Text(bundle_id@)]),
{
    let mut args: Vec<SqlArg> = Vec::new();
    args.push(SqlArg::Text(String::from_str(name)));
    args.push(SqlArg::Text(String::from_str(bundle_id)));
    assert(args_of(args@) == seq![SqlArgView::Text(name@), SqlArgView::Text(bundle_id@)]);
    Query { sql: String::from_str("INSERT INTO app (name, bundle_id) VALUES (?1, ?2)"), args }
}

/// The statement that counts the key release `stat`.
pub fn upsert_statement(stat: &KeyStat) -> (q: Query)
    ensures
        q.sends(upsert_sql(), upsert_args(stat@)),
{
    let mut args: Vec<SqlArg> = Vec::new();
    args.push(SqlArg::Integer(stat.ts_day));
    args.push(SqlArg::Text(stat.key_code.clone()));
    args.push(SqlArg::Integer(stat.app_id));
    assert(args_of(args@) == upsert_args(stat@));
    Query {
        sql: String::from_str(
            "INSERT INTO key_stat (ts_day, key_code, app_id, count) VALUES (?1, ?2, ?3, 1) ON CONFLICT(ts_day, key_code, app_id) DO UPDATE SET count = count + 1",
        ),
        args,
    }
}

} // verus!
