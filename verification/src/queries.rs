use vstd::prelude::*;
use crate::sql_helpers::{
    ColumnDefinition, generate_order_clause, generate_select_clause, order_clause, select_clause,
};
use crate::value::{AtIntoValue, AtValue, SqlError};

verus! {

/// A struct kept in a table; the `AutoTable` derive writes this for a struct.
pub trait AutoTable: Sized {
    fn table_name() -> &'static str;

    /// The `index_by` text, if one was given.
    fn indexes() -> Option<String>;

    /// The table's columns, one per field, in order.
    fn column_definitions() -> Vec<ColumnDefinition>;

    /// The stored values of the fields, in column order.
    fn to_sql_values(&self) -> Result<Vec<AtValue>, SqlError>;

    /// A value of the struct from a row's values, in column order.
    fn from_sql_values(values: &[AtValue]) -> Result<Self, SqlError>;

    /// The column by which rows are looked up: by default the first primary key.
    fn get_id_column() -> (r: Option<ColumnDefinition>)
        default_ensures
            exists|cols: Vec<ColumnDefinition>|
                call_ensures(Self::column_definitions, (), cols) && is_id_column(cols@, r),
    {
        let cols = Self::column_definitions();
        id_column(&cols)
    }

    /// The columns that order the rows: by default those with a sort direction.
    fn get_sort_columns() -> (r: Vec<ColumnDefinition>)
        default_ensures
            exists|cols: Vec<ColumnDefinition>|
                call_ensures(Self::column_definitions, (), cols) && r@ == sorted_columns(cols@),
    {
        let cols = Self::column_definitions();
        sort_columns(&cols)
    }
}

/// A type with its own conversion to and from stored values.
pub trait AtSqlCodec: Sized {
    type Value: AtIntoValue;

    fn to_sql(&self) -> Self::Value;

    fn from_sql(value: &AtValue) -> Result<Self, SqlError>;
}

/// One page of a table, with what a client needs to page through it.
#[derive(Debug, Clone, PartialEq)]
pub struct Paginated<T> {
    /// Number of rows in the table.
    pub count: u32,
    /// `count / page_size`.
    pub pages: u32,
    pub page: u32,
    pub page_size: u32,
    pub content: Vec<T>,
}

/// Why a query cannot be built.
#[derive(Debug, Clone, PartialEq)]
pub enum QueryError {
    /// The table has no column to look rows up by.
    NoIdColumn,
}

/// A copy of a column definition.
pub fn copy_column(c: &ColumnDefinition) -> (r: ColumnDefinition)
    ensures
        r == *c,
{
    ColumnDefinition {
        name: c.name.clone(),
        sql_type: c.sql_type.clone(),
        nullable: c.nullable,
        primary_key: c.primary_key,
        sort_by: c.sort_by.clone(),
        default: c.default.clone(),
    }
}

/// `k` is the first primary-key column.
pub open spec fn first_primary_key(cols: Seq<ColumnDefinition>, k: int) -> bool {
    &&& 0 <= k < cols.len()
    &&& cols[k].primary_key
    &&& forall|j: int| 0 <= j < k ==> !cols[j].primary_key
}

/// `r` is the first primary-key column of `cols`, or `None` when there is none.
pub open spec fn is_id_column(cols: Seq<ColumnDefinition>, r: Option<ColumnDefinition>) -> bool {
    match r {
        Some(c) => exists|k: int| first_primary_key(cols, k) && c == cols[k],
        None => forall|j: int| 0 <= j < cols.len() ==> !(#[trigger] cols[j]).primary_key,
    }
}

/// The first primary-key column, if there is one.
pub fn id_column(columns: &Vec<ColumnDefinition>) -> (r: Option<ColumnDefinition>)
    ensures
        is_id_column(columns@, r),
{
    let n = columns.len();
    let mut i: usize = 0;
    while i < n
        invariant
            n == columns@.len(),
            i <= n,
            forall|j: int| 0 <= j < i ==> !(#[trigger] columns@[j]).primary_key,
        decreases n - i,
    {
        if columns[i].primary_key {
            assert(first_primary_key(columns@, i as int));
            return Some(copy_column(&columns[i]));
        }
        i = i + 1;
    }
    None
}

/// The columns that carry a sort direction, in order.
pub open spec fn sorted_columns(cols: Seq<ColumnDefinition>) -> Seq<ColumnDefinition> {
    cols.filter(|c: ColumnDefinition| c.sort_by is Some)
}

/// The columns that carry a sort direction, in order.
pub fn sort_columns(columns: &Vec<ColumnDefinition>) -> (r: Vec<ColumnDefinition>)
    ensures
        r@ == sorted_columns(columns@),
{
    let mut out: Vec<ColumnDefinition> = Vec::new();
    let n = columns.len();
    let mut i: usize = 0;
    while i < n
        invariant
            n == columns@.len(),
            i <= n,
            out@ == sorted_columns(columns@.take(i as int)),
        decreases n - i,
    {
        proof {
            reveal_with_fuel(Seq::<_>::filter, 1);
            assert(columns@.take(i + 1).drop_last() =~= columns@.take(i as int));
        }
        if columns[i].sort_by.is_some() {
            out.push(copy_column(&columns[i]));
        }
        i = i + 1;
    }
    assert(columns@.take(n as int) =~= columns@);
    out
}

/// `SELECT c1,c2 FROM table`.
pub open spec fn select_from(table: Seq<char>, cols: Seq<ColumnDefinition>) -> Seq<char> {
    select_clause(cols) + " FROM "@ + table
}

fn select_from_exec(table: &str, columns: &Vec<ColumnDefinition>) -> (r: String)
    ensures
        r@ == select_from(table@, columns@),
{
    let mut q = generate_select_clause(columns);
    q.append(" FROM ");
    q.append(table);
    q
}

/// `SELECT c1,c2 FROM table WHERE id = ? LIMIT 1`, with `id` the id column;
/// refused when there is no id column.
pub fn select_by_id_query(
    table: &str,
    columns: &Vec<ColumnDefinition>,
    id_column: &Option<ColumnDefinition>,
) -> (r: Result<String, QueryError>)
    ensures
        match id_column {
            Some(c) => r matches Ok(q) && q@ == select_from(table@, columns@) + " WHERE "@ + c.name@
                + " = ? LIMIT 1"@,
            None => r == Err::<String, QueryError>(QueryError::NoIdColumn),
        },
{
    match id_column {
        None => Err(QueryError::NoIdColumn),
        Some(c) => {
            let mut q = select_from_exec(table, columns);
            q.append(" WHERE ");
            q.append(c.name.as_str());
            q.append(" = ? LIMIT 1");
            Ok(q)
        },
    }
}

/// `SELECT c1,c2 FROM table WHERE column = ? LIMIT 1`.
pub fn select_one_by_column_query(table: &str, columns: &Vec<ColumnDefinition>, column: &str) -> (r: String)
    ensures
        r@ == select_from(table@, columns@) + " WHERE "@ + column@ + " = ? LIMIT 1"@,
{
    let mut q = select_from_exec(table, columns);
    q.append(" WHERE ");
    q.append(column);
    q.append(" = ? LIMIT 1");
    q
}

/// `SELECT c1,c2 FROM table ORDER BY ... LIMIT ? OFFSET ?`.
pub fn select_range_query(
    table: &str,
    columns: &Vec<ColumnDefinition>,
    sort_columns: &Vec<ColumnDefinition>,
) -> (r: String)
    ensures
        r@ == select_from(table@, columns@) + " "@ + order_clause(sort_columns@) + " LIMIT ? OFFSET ?"@,
{
    let mut q = select_from_exec(table, columns);
    q.append(" ");
    let order = generate_order_clause(sort_columns);
    q.append(order.as_str());
    q.append(" LIMIT ? OFFSET ?");
    q
}

/// `SELECT c1,c2 FROM table rest ORDER BY ... LIMIT ? OFFSET ?`.
pub fn select_page_query(
    table: &str,
    columns: &Vec<ColumnDefinition>,
    sort_columns: &Vec<ColumnDefinition>,
    rest_sql: &str,
) -> (r: String)
    ensures
        r@ == select_from(table@, columns@) + " "@ + rest_sql@ + " "@ + order_clause(sort_columns@)
            + " LIMIT ? OFFSET ?"@,
{
    let mut q = select_from_exec(table, columns);
    q.append(" ");
    q.append(rest_sql);
    q.append(" ");
    let order = generate_order_clause(sort_columns);
    q.append(order.as_str());
    q.append(" LIMIT ? OFFSET ?");
    q
}

/// `SELECT c1,c2 FROM table rest [ORDER BY ...]`; the ordering only when asked for.
pub fn select_custom_query(
    table: &str,
    columns: &Vec<ColumnDefinition>,
    sort_columns: &Vec<ColumnDefinition>,
    rest_sql: &str,
    include_order: bool,
) -> (r: String)
    ensures
        r@ == select_from(table@, columns@) + " "@ + rest_sql@ + " "@ + (if include_order {
            order_clause(sort_columns@)
        } else {
            Seq::<char>::empty()
        }),
{
    let mut q = select_from_exec(table, columns);
    q.append(" ");
    q.append(rest_sql);
    q.append(" ");
    if include_order {
        let order = generate_order_clause(sort_columns);
        q.append(order.as_str());
    }
    q
}

/// `SELECT Count(*) FROM table`.
pub fn count_query(table: &str) -> (r: String)
    ensures
        r@ == "SELECT Count(*) FROM "@ + table@,
{
    let mut q = String::from_str("SELECT Count(*) FROM ");
    q.append(table);
    q
}

/// The `LIMIT` and `OFFSET` of a page: the page size, and the page size
/// times the page number.
pub fn page_params(page: u32, page_size: u32) -> (r: (u32, u32))
    requires
        page_size * page <= u32::MAX,
    ensures
        r.0 == page_size,
        r.1 == page_size * page,
{
    (page_size, page_size * page)
}

/// A page with its totals; the number of pages is `count / page_size`.
pub fn paginate<T>(count: u32, page: u32, page_size: u32, content: Vec<T>) -> (r: Paginated<T>)
    requires
        page_size > 0,
    ensures
        r.count == count,
        r.pages == count / page_size,
        r.page == page,
        r.page_size == page_size,
        r.content == content,
{
    Paginated { count, pages: count / page_size, page, page_size, content }
}

/// The first of the entries, if any.
pub fn first_entry<T>(entries: Vec<T>) -> (r: Option<T>)
    ensures
        entries@.len() == 0 ==> r is None,
        entries@.len() > 0 ==> r == Some(entries@[0]),
{
    let mut entries = entries;
    if entries.len() == 0 {
        None
    } else {
        Some(entries.swap_remove(0))
    }
}

/// `out` is what converting a row with these values can give.
pub open spec fn decodes_to<T: AutoTable>(row: Seq<AtValue>, out: Result<T, SqlError>) -> bool {
    exists|s: &[AtValue]|
        #![trigger call_ensures(T::from_sql_values, (s,), out)]
        s@ == row && call_ensures(T::from_sql_values, (s,), out)
}

/// Converting a row with these values can succeed.
pub open spec fn decodes_ok<T: AutoTable>(row: Seq<AtValue>) -> bool {
    exists|x: T| decodes_to::<T>(row, Ok(x))
}

/// Each row's values turned into the struct, in order; the first row that
/// does not convert gives the error.
pub fn decode_rows<T: AutoTable>(rows: &Vec<Vec<AtValue>>) -> (r: Result<Vec<T>, SqlError>)
    ensures
        r matches Ok(v) ==> v@.len() == rows@.len() && forall|i: int|
            0 <= i < v@.len() ==> decodes_to::<T>(rows@[i]@, Ok(#[trigger] v@[i])),
        r matches Err(e) ==> exists|i: int|
            0 <= i < rows@.len() && decodes_to::<T>(#[trigger] rows@[i]@, Err(e)) && forall|j: int|
                0 <= j < i ==> decodes_ok::<T>(#[trigger] rows@[j]@),
{
    let mut out: Vec<T> = Vec::new();
    let n = rows.len();
    let mut i: usize = 0;
    while i < n
        invariant
            n == rows@.len(),
            i <= n,
            out@.len() == i,
            forall|j: int| 0 <= j < i ==> decodes_to::<T>(rows@[j]@, Ok(#[trigger] out@[j])),
        decreases n - i,
    {
        let s = rows[i].as_slice();
        let res = T::from_sql_values(s);
        assert(s@ == rows@[i as int]@);
        assert(decodes_to::<T>(rows@[i as int]@, res));
        match res {
            Ok(x) => {
                out.push(x);
            },
            Err(e) => {
                assert forall|j: int| 0 <= j < i implies decodes_ok::<T>(#[trigger] rows@[j]@) by {
                    assert(decodes_to::<T>(rows@[j]@, Ok(out@[j])));
                }
                assert(decodes_to::<T>(rows@[i as int]@, Err(e)));
                return Err(e);
            },
        }
        i = i + 1;
    }
    Ok(out)
}

} // verus!
