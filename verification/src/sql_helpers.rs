use vstd::prelude::*;
use crate::naming::{is_ascii_char, is_ascii_text};
use crate::text::{join, lemma_join_push};

verus! {

/// One column of a table, as the `AutoTable` derive describes it.
#[derive(Debug, Clone, PartialEq)]
pub struct ColumnDefinition {
    pub name: String,
    /// SQL type of the column (`INTEGER`, `TEXT`, ...).
    pub sql_type: String,
    pub nullable: bool,
    pub primary_key: bool,
    /// Sort direction (`ASC` / `DESC`) when the column orders the rows.
    pub sort_by: Option<String>,
    /// Default value, already written as an SQL literal.
    pub default: Option<String>,
}

/// A column definition with its strings taken as character sequences.
pub ghost struct ColumnView {
    pub name: Seq<char>,
    pub sql_type: Seq<char>,
    pub nullable: bool,
    pub primary_key: bool,
    pub sort_by: Option<Seq<char>>,
    pub default: Option<Seq<char>>,
}

/// The characters of an optional string.
pub open spec fn opt_view(o: Option<String>) -> Option<Seq<char>> {
    match o {
        Some(s) => Some(s@),
        None => None,
    }
}

impl View for ColumnDefinition {
    type V = ColumnView;

    open spec fn view(&self) -> ColumnView {
        ColumnView {
            name: self.name@,
            sql_type: self.sql_type@,
            nullable: self.nullable,
            primary_key: self.primary_key,
            sort_by: opt_view(self.sort_by),
            default: opt_view(self.default),
        }
    }
}

/// Names of the columns, in order.
pub open spec fn column_names(cols: Seq<ColumnDefinition>) -> Seq<Seq<char>> {
    cols.map_values(|c: ColumnDefinition| c.name@)
}

/// The definition of one column inside `CREATE TABLE`:
/// `name TYPE [PRIMARY KEY] [NOT NULL] [DEFAULT value]`, where `NOT NULL`
/// stands for a column that is neither nullable nor the primary key.
pub open spec fn column_sql(c: ColumnDefinition) -> Seq<char> {
    c.name@ + " "@ + c.sql_type@
        + (if c.primary_key { " PRIMARY KEY"@ } else { seq![] })
        + (if !c.nullable && !c.primary_key { " NOT NULL"@ } else { seq![] })
        + (match c.default {
            Some(d) => " DEFAULT "@ + d@,
            None => seq![],
        })
}

/// `CREATE TABLE table (col, col, ...)`.
pub open spec fn create_table_sql(table: Seq<char>, cols: Seq<ColumnDefinition>) -> Seq<char> {
    "CREATE TABLE "@ + table + " ("@ + join(cols.map_values(|c: ColumnDefinition| column_sql(c)), ", "@)
        + ")"@
}

/// `SELECT a,b,c`; with no column, `SELECT`.
pub open spec fn select_clause(cols: Seq<ColumnDefinition>) -> Seq<char> {
    if cols.len() == 0 {
        "SELECT"@
    } else {
        "SELECT "@ + join(column_names(cols), ","@)
    }
}

/// One entry of `ORDER BY`: the column name, then its direction if it has one.
pub open spec fn order_item(c: ColumnDefinition) -> Seq<char> {
    match c.sort_by {
        Some(d) => c.name@ + " "@ + d@,
        None => c.name@,
    }
}

/// `ORDER BY a DESC,b`; with no column, the empty string.
pub open spec fn order_clause(cols: Seq<ColumnDefinition>) -> Seq<char> {
    if cols.len() == 0 {
        seq![]
    } else {
        "ORDER BY "@ + join(cols.map_values(|c: ColumnDefinition| order_item(c)), ","@)
    }
}

/// `n` placeholders `?`.
pub open spec fn placeholders(n: nat) -> Seq<Seq<char>> {
    Seq::new(n, |i: int| "?"@)
}

/// `INSERT OR REPLACE INTO table (a,b) VALUES (?,?)`.
/// With no column the text degenerates to `INSERT OR REPLACE INTO table ) VALUES )`.
pub open spec fn insert_sql(table: Seq<char>, cols: Seq<ColumnDefinition>) -> Seq<char> {
    if cols.len() == 0 {
        "INSERT OR REPLACE INTO "@ + table + " ) VALUES )"@
    } else {
        "INSERT OR REPLACE INTO "@ + table + " ("@ + join(column_names(cols), ","@) + ") VALUES ("@
            + join(placeholders(cols.len()), ","@) + ")"@
    }
}

impl ColumnDefinition {
    /// The column's definition as written inside `CREATE TABLE`.
    pub fn to_sql(&self) -> (r: String)
        ensures
            r@ == column_sql(*self),
    {
        let mut out = self.name.clone();
        out.append(" ");
        out.append(self.sql_type.as_str());
        if self.primary_key {
            out.append(" PRIMARY KEY");
        }
        if !self.nullable && !self.primary_key {
            out.append(" NOT NULL");
        }
        match &self.default {
            Some(d) => {
                out.append(" DEFAULT ");
                out.append(d.as_str());
            },
            None => {},
        }
        out
    }
}

/// `CREATE TABLE table_name (c1, c2, ...)` with each column's definition.
pub fn generate_create_table(table_name: &str, columns: &Vec<ColumnDefinition>) -> (r: String)
    ensures
        r@ == create_table_sql(table_name@, columns@),
{
    let ghost defs = columns@.map_values(|c: ColumnDefinition| column_sql(c));
    let mut cols_sql = String::new();
    let n = columns.len();
    let mut i: usize = 0;
    while i < n
        invariant
            n == columns@.len(),
            i <= n,
            defs == columns@.map_values(|c: ColumnDefinition| column_sql(c)),
            cols_sql@ == join(defs.take(i as int), ", "@),
        decreases n - i,
    {
        proof {
            assert(defs.take(i + 1) =~= defs.take(i as int).push(defs[i as int]));
            lemma_join_push(defs.take(i as int), ", "@, defs[i as int]);
        }
        if i > 0 {
            cols_sql.append(", ");
        }
        let c = columns[i].to_sql();
        cols_sql.append(c.as_str());
        i = i + 1;
    }
    assert(defs.take(n as int) =~= defs);
    let mut out = String::from_str("CREATE TABLE ");
    out.append(table_name);
    out.append(" (");
    out.append(cols_sql.as_str());
    out.append(")");
    out
}

/// `SELECT c1,c2,...` over the names of the columns.
pub fn generate_select_clause(columns: &Vec<ColumnDefinition>) -> (r: String)
    ensures
        r@ == select_clause(columns@),
{
    if columns.len() == 0 {
        return String::from_str("SELECT");
    }
    let ghost names = column_names(columns@);
    let mut out = String::from_str("SELECT ");
    let ghost prefix = out@;
    let n = columns.len();
    let mut i: usize = 0;
    while i < n
        invariant
            n == columns@.len(),
            i <= n,
            names == column_names(columns@),
            out@ == prefix + join(names.take(i as int), ","@),
        decreases n - i,
    {
        proof {
            assert(names.take(i + 1) =~= names.take(i as int).push(names[i as int]));
            lemma_join_push(names.take(i as int), ","@, names[i as int]);
        }
        if i > 0 {
            out.append(",");
        }
        out.append(columns[i].name.as_str());
        i = i + 1;
    }
    assert(names.take(n as int) =~= names);
    out
}

/// `ORDER BY c1 DIR,c2,...` over the given columns; empty when there is none.
pub fn generate_order_clause(sortable_columns: &Vec<ColumnDefinition>) -> (r: String)
    ensures
        r@ == order_clause(sortable_columns@),
{
    if sortable_columns.len() == 0 {
        return String::new();
    }
    let ghost items = sortable_columns@.map_values(|c: ColumnDefinition| order_item(c));
    let mut out = String::from_str("ORDER BY ");
    let ghost prefix = out@;
    let n = sortable_columns.len();
    let mut i: usize = 0;
    while i < n
        invariant
            n == sortable_columns@.len(),
            i <= n,
            items == sortable_columns@.map_values(|c: ColumnDefinition| order_item(c)),
            out@ == prefix + join(items.take(i as int), ","@),
        decreases n - i,
    {
        proof {
            assert(items.take(i + 1) =~= items.take(i as int).push(items[i as int]));
            lemma_join_push(items.take(i as int), ","@, items[i as int]);
        }
        if i > 0 {
            out.append(",");
        }
        let col = &sortable_columns[i];
        out.append(col.name.as_str());
        match &col.sort_by {
            Some(dir) => {
                out.append(" ");
                out.append(dir.as_str());
            },
            None => {},
        }
        i = i + 1;
    }
    assert(items.take(n as int) =~= items);
    out
}

/// `INSERT OR REPLACE INTO table (c1,c2) VALUES (?,?)`, one placeholder per column.
pub fn generate_insert_into(table_name: &str, columns: &Vec<ColumnDefinition>) -> (r: String)
    ensures
        r@ == insert_sql(table_name@, columns@),
{
    let mut out = String::from_str("INSERT OR REPLACE INTO ");
    out.append(table_name);
    if columns.len() == 0 {
        out.append(" ) VALUES )");
        return out;
    }
    out.append(" (");
    let ghost names = column_names(columns@);
    let ghost prefix = out@;
    let n = columns.len();
    let mut i: usize = 0;
    while i < n
        invariant
            n == columns@.len(),
            i <= n,
            names == column_names(columns@),
            out@ == prefix + join(names.take(i as int), ","@),
        decreases n - i,
    {
        proof {
            assert(names.take(i + 1) =~= names.take(i as int).push(names[i as int]));
            lemma_join_push(names.take(i as int), ","@, names[i as int]);
        }
        if i > 0 {
            out.append(",");
        }
        out.append(columns[i].name.as_str());
        i = i + 1;
    }
    assert(names.take(n as int) =~= names);
    out.append(") VALUES (");
    let ghost marks = placeholders(n as nat);
    let ghost prefix2 = out@;
    let mut j: usize = 0;
    while j < n
        invariant
            j <= n,
            marks == placeholders(n as nat),
            out@ == prefix2 + join(marks.take(j as int), ","@),
        decreases n - j,
    {
        proof {
            assert(marks.take(j + 1) =~= marks.take(j as int).push(marks[j as int]));
            lemma_join_push(marks.take(j as int), ","@, marks[j as int]);
        }
        if j > 0 {
            out.append(",");
        }
        out.append("?");
        j = j + 1;
    }
    assert(marks.take(n as int) =~= marks);
    out.append(")");
    out
}

/// An empty parameter list, for statements that bind nothing.
pub fn no_params() -> (r: Vec<u8>)
    ensures
        r@ == Seq::<u8>::empty(),
{
    Vec::new()
}

/// Whether a character is alphanumeric in the Unicode sense.
pub uninterp spec fn is_alphanumeric_char(c: char) -> bool;

/// An ASCII letter or digit.
pub open spec fn is_ascii_alphanumeric(c: char) -> bool {
    let u = c as u32;
    ||| 48 <= u <= 57
    ||| 65 <= u <= 90
    ||| 97 <= u <= 122
}

/// `char::is_alphanumeric`: whether `c` is alphabetic or numeric in the
/// Unicode sense. Its result is taken as [`is_alphanumeric_char`] of `c`.
/// Among ASCII characters these are the letters and the digits alone
/// (Unicode's `Alphabetic` and numeric categories, which std's
/// documentation refers to).
#[verifier::external_body]
fn char_is_alphanumeric(c: char) -> (r: bool)
    ensures
        r == is_alphanumeric_char(c),
        is_ascii_char(c) ==> (r <==> is_ascii_alphanumeric(c)),
{
    c.is_alphanumeric()
}

/// A table name may hold only alphanumeric characters and `_`.
pub open spec fn valid_table_name(name: Seq<char>) -> bool {
    forall|i: int| 0 <= i < name.len() ==> is_alphanumeric_char(#[trigger] name[i]) || name[i] == '_'
}

/// An ASCII name is a valid table name when it holds only ASCII letters,
/// digits and `_`.
pub open spec fn valid_ascii_table_name(name: Seq<char>) -> bool {
    forall|i: int| 0 <= i < name.len() ==> is_ascii_alphanumeric(#[trigger] name[i]) || name[i] == '_'
}

/// Hands the name back when it is a valid table name, else the error
/// `Invalid table name`.
pub fn validate_table_name<'a>(name: &'a str) -> (r: Result<&'a str, String>)
    ensures
        valid_table_name(name@) ==> r == Ok::<&str, String>(name),
        !valid_table_name(name@) ==> (r matches Err(e) && e@ == "Invalid table name"@),
        is_ascii_text(name@) ==> (valid_table_name(name@) <==> valid_ascii_table_name(name@)),
{
    let n = name.unicode_len();
    let mut i: usize = 0;
    while i < n
        invariant
            n == name@.len(),
            i <= n,
            forall|j: int| 0 <= j < i ==> is_alphanumeric_char(#[trigger] name@[j]) || name@[j] == '_',
            is_ascii_text(name@) ==> forall|j: int|
                0 <= j < i ==> (is_alphanumeric_char(#[trigger] name@[j]) <==> is_ascii_alphanumeric(
                    name@[j],
                )),
        decreases n - i,
    {
        let c = name.get_char(i);
        if !(char_is_alphanumeric(c) || c == '_') {
            proof {
                if is_ascii_text(name@) {
                    assert(is_ascii_char(name@[i as int]));
                    assert(!valid_ascii_table_name(name@));
                }
                assert(!valid_table_name(name@));
            }
            return Err(String::from_str("Invalid table name"));
        }
        proof {
            if is_ascii_text(name@) {
                assert(is_ascii_char(name@[i as int]));
            }
        }
        i = i + 1;
    }
    Ok(name)
}

/// `PRAGMA table_info(name)`, the query that lists a table's columns;
/// the name is checked first as [`validate_table_name`] does.
pub fn table_info_query(table_name: &str) -> (r: Result<String, String>)
    ensures
        valid_table_name(table_name@) ==> (r matches Ok(q) && q@ == "PRAGMA table_info("@ + table_name@ + ")"@),
        !valid_table_name(table_name@) ==> (r matches Err(e) && e@ == "Invalid table name"@),
{
    let name = validate_table_name(table_name)?;
    let mut q = String::from_str("PRAGMA table_info(");
    q.append(name);
    q.append(")");
    Ok(q)
}

} // verus!
