//! What the store makes of the rows that SQLite answers a query with.

use crate::db::{AppInfo, DateRange, KeyRankingItem, KeyStatsByDay, StoreError};
use vstd::prelude::*;

verus! {

/// What one column of a result row holds, as far as the store reads it.
#[derive(Debug, Clone, PartialEq, Eq)]
pub enum SqlCell {
    Null,
    Integer(i64),
    Text(String),
    /// A floating-point number or a blob; the store never asks for either.
    Other,
}

/// The text in a cell; empty where the cell holds no text.
pub open spec fn text_in(cell: SqlCell) -> Seq<char> {
    match cell {
        SqlCell::Text(s) => s@,
        _ => Seq::empty(),
    }
}

/// The integer in a cell; 0 where the cell holds none. This is also what a
/// sum or an extreme over no counter at all, which SQLite gives as `NULL`,
/// counts as.
pub open spec fn integer_in(cell: SqlCell) -> int {
    match cell {
        SqlCell::Integer(n) => n as int,
        _ => 0,
    }
}

/// Whether column `i` of `row` is there and holds text.
pub open spec fn has_text(row: Seq<SqlCell>, i: int) -> bool {
    0 <= i < row.len() && row[i] is Text
}

/// Whether column `i` of `row` is there and holds an integer.
pub open spec fn has_integer(row: Seq<SqlCell>, i: int) -> bool {
    0 <= i < row.len() && row[i] is Integer
}

/// Whether column `i` of `row` is there and holds an integer or `NULL`.
pub open spec fn has_nullable_integer(row: Seq<SqlCell>, i: int) -> bool {
    0 <= i < row.len() && (row[i] is Integer || row[i] is Null)
}

/// The text in column `i` of `row`, if that column holds text.
fn text_at(row: &Vec<SqlCell>, i: usize) -> (r: Option<String>)
    ensures
        r is Some <==> has_text(row@, i as int),
        r matches Some(s) ==> s@ == text_in(row@[i as int]),
{
    if i < row.len() {
        match &row[i] {
            SqlCell::Text(s) => Some(s.clone()),
            _ => None,
        }
    } else {
        None
    }
}

/// The integer in column `i` of `row`, if that column holds one.
fn integer_at(row: &Vec<SqlCell>, i: usize) -> (r: Option<i64>)
    ensures
        r is Some <==> has_integer(row@, i as int),
        r matches Some(n) ==> n == integer_in(row@[i as int]),
{
    if i < row.len() {
        match &row[i] {
            SqlCell::Integer(n) => Some(*n),
            _ => None,
        }
    } else {
        None
    }
}

/// The integer in column `i` of `row`, with 0 for `NULL`, if that column
/// holds either.
fn integer_or_zero_at(row: &Vec<SqlCell>, i: usize) -> (r: Option<i64>)
    ensures
        r is Some <==> has_nullable_integer(row@, i as int),
        r matches Some(n) ==> n == integer_in(row@[i as int]),
{
    if i < row.len() {
        match &row[i] {
            SqlCell::Integer(n) => Some(*n),
            SqlCell::Null => Some(0),
            _ => None,
        }
    } else {
        None
    }
}

/// Whether `row` is a line of the ranking: a key and its count.
pub open spec fn is_ranking_row(row: Seq<SqlCell>) -> bool {
    has_text(row, 0) && has_integer(row, 1)
}

/// Whether `row` describes an application: id, name, identifier.
pub open spec fn is_app_row(row: Seq<SqlCell>) -> bool {
    has_integer(row, 0) && has_text(row, 1) && has_text(row, 2)
}

/// Whether `row` is a counter by day: day, key, count.
pub open spec fn is_day_row(row: Seq<SqlCell>) -> bool {
    has_integer(row, 0) && has_text(row, 1) && has_integer(row, 2)
}

/// The ranking that the rows of a ranking query stand for: one item for
/// each row, in the order of the rows. `Malformed` if and only if some row
/// is no line of a ranking.
pub fn ranking_from_rows(rows: &Vec<Vec<SqlCell>>) -> (r: Result<Vec<KeyRankingItem>, StoreError>)
    ensures
        r is Ok <==> forall|i: int| 0 <= i < rows@.len() ==> is_ranking_row(#[trigger] rows@[i]@),
        r matches Ok(items) ==> items@.len() == rows@.len() && forall|i: int|
            0 <= i < rows@.len() ==> (#[trigger] items@[i]).key_code@ == text_in(rows@[i]@[0])
                && items@[i].count == integer_in(rows@[i]@[1]),
        r matches Err(e) ==> e is Malformed,
{
    let mut items: Vec<KeyRankingItem> = Vec::new();
    let mut i: usize = 0;
    while i < rows.len()
        invariant
            i <= rows.len(),
            items@.len() == i,
            forall|j: int| 0 <= j < i ==> is_ranking_row(#[trigger] rows@[j]@),
            forall|j: int|
                0 <= j < i ==> (#[trigger] items@[j]).key_code@ == text_in(rows@[j]@[0])
                    && items@[j].count == integer_in(rows@[j]@[1]),
        decreases rows.len() - i,
    {
        let row = &rows[i];
        match (text_at(row, 0), integer_at(row, 1)) {
            (Some(key_code), Some(count)) => {
                items.push(KeyRankingItem { key_code, count });
            },
            _ => {
                return Err(StoreError::Malformed);
            },
        }
        i += 1;
    }
    Ok(items)
}

/// The applications that the rows of an application query stand for, in
/// the order of the rows. `Malformed` if and only if some row describes no
/// application.
pub fn apps_from_rows(rows: &Vec<Vec<SqlCell>>) -> (r: Result<Vec<AppInfo>, StoreError>)
    ensures
        r is Ok <==> forall|i: int| 0 <= i < rows@.len() ==> is_app_row(#[trigger] rows@[i]@),
        r matches Ok(apps) ==> apps@.len() == rows@.len() && forall|i: int|
            0 <= i < rows@.len() ==> (#[trigger] apps@[i]).id == integer_in(rows@[i]@[0])
                && apps@[i].name@ == text_in(rows@[i]@[1]) && apps@[i].bundle_id@ == text_in(
                rows@[i]@[2],
            ),
        r matches Err(e) ==> e is Malformed,
{
    let mut apps: Vec<AppInfo> = Vec::new();
    let mut i: usize = 0;
    while i < rows.len()
        invariant
            i <= rows.len(),
            apps@.len() == i,
            forall|j: int| 0 <= j < i ==> is_app_row(#[trigger] rows@[j]@),
            forall|j: int|
                0 <= j < i ==> (#[trigger] apps@[j]).id == integer_in(rows@[j]@[0])
                    && apps@[j].name@ == text_in(rows@[j]@[1]) && apps@[j].bundle_id@ == text_in(
                    rows@[j]@[2],
                ),
        decreases rows.len() - i,
    {
        let row = &rows[i];
        match (integer_at(row, 0), text_at(row, 1), text_at(row, 2)) {
            (Some(id), Some(name), Some(bundle_id)) => {
                apps.push(AppInfo { id, name, bundle_id });
            },
            _ => {
                return Err(StoreError::Malformed);
            },
        }
        i += 1;
    }
    Ok(apps)
}

/// The counters by day that the rows of such a query stand for, in the
/// order of the rows. `Malformed` if and only if some row is no counter by
/// day.
pub fn stats_by_day_from_rows(rows: &Vec<Vec<SqlCell>>) -> (r: Result<
    Vec<KeyStatsByDay>,
    StoreError,
>)
    ensures
        r is Ok <==> forall|i: int| 0 <= i < rows@.len() ==> is_day_row(#[trigger] rows@[i]@),
        r matches Ok(stats) ==> stats@.len() == rows@.len() && forall|i: int|
            0 <= i < rows@.len() ==> (#[trigger] stats@[i]).ts_day == integer_in(rows@[i]@[0])
                && stats@[i].key_code@ == text_in(rows@[i]@[1]) && stats@[i].count == integer_in(
                rows@[i]@[2],
            ),
        r matches Err(e) ==> e is Malformed,
{
    let mut stats: Vec<KeyStatsByDay> = Vec::new();
    let mut i: usize = 0;
    while i < rows.len()
        invariant
            i <= rows.len(),
            stats@.len() == i,
            forall|j: int| 0 <= j < i ==> is_day_row(#[trigger] rows@[j]@),
            forall|j: int|
                0 <= j < i ==> (#[trigger] stats@[j]).ts_day == integer_in(rows@[j]@[0])
                    && stats@[j].key_code@ == text_in(rows@[j]@[1]) && stats@[j].count
                    == integer_in(rows@[j]@[2]),
        decreases rows.len() - i,
    {
        let row = &rows[i];
        match (integer_at(row, 0), text_at(row, 1), integer_at(row, 2)) {
            (Some(ts_day), Some(key_code), Some(count)) => {
                stats.push(KeyStatsByDay { ts_day, key_code, count });
            },
            _ => {
                return Err(StoreError::Malformed);
            },
        }
        i += 1;
    }
    Ok(stats)
}

/// The total that the answer to a total query stands for: the sum in the
/// first row, 0 where SQLite gives `NULL` because no counter matched.
/// `NoRows` if and only if there is no row, `Malformed` if and only if the
/// first row holds neither an integer nor `NULL`.
pub fn total_from_rows(rows: &Vec<Vec<SqlCell>>) -> (r: Result<i64, StoreError>)
    ensures
        r is Ok <==> rows@.len() > 0 && has_nullable_integer(rows@[0]@, 0),
        r matches Ok(total) ==> total == integer_in(rows@[0]@[0]),
        r matches Err(e) ==> (e is NoRows <==> rows@.len() == 0) && (e is Malformed <==> rows@.len()
            > 0),
{
    if rows.len() == 0 {
        return Err(StoreError::NoRows);
    }
    match integer_or_zero_at(&rows[0], 0) {
        Some(total) => Ok(total),
        None => Err(StoreError::Malformed),
    }
}

/// The range that the answer to a range query stands for: the least and
/// the greatest day in the first row, each 0 where SQLite gives `NULL`
/// because there is no counter. `NoRows` if and only if there is no row,
/// `Malformed` if and only if the first row does not hold two such values.
pub fn date_range_from_rows(rows: &Vec<Vec<SqlCell>>) -> (r: Result<DateRange, StoreError>)
    ensures
        r is Ok <==> rows@.len() > 0 && has_nullable_integer(rows@[0]@, 0) && has_nullable_integer(
            rows@[0]@,
            1,
        ),
        r matches Ok(range) ==> range.min == integer_in(rows@[0]@[0]) && range.max == integer_in(
            rows@[0]@[1],
        ),
        r matches Err(e) ==> (e is NoRows <==> rows@.len() == 0) && (e is Malformed <==> rows@.len()
            > 0),
{
    if rows.len() == 0 {
        return Err(StoreError::NoRows);
    }
    match (integer_or_zero_at(&rows[0], 0), integer_or_zero_at(&rows[0], 1)) {
        (Some(min), Some(max)) => Ok(DateRange { min, max }),
        _ => Err(StoreError::Malformed),
    }
}

/// The id that the answer to an application lookup stands for: the integer
/// in the first row, `None` where there is no row or the first row holds no
/// integer.
pub fn app_id_from_rows(rows: &Vec<Vec<SqlCell>>) -> (r: Option<i64>)
    ensures
        r is Some <==> rows@.len() > 0 && has_integer(rows@[0]@, 0),
        r matches Some(id) ==> id == integer_in(rows@[0]@[0]),
{
    if rows.len() == 0 {
        None
    } else {
        integer_at(&rows[0], 0)
    }
}

} // verus!
