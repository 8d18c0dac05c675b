use auto_table::queries::{
    count_query, decode_rows, first_entry, id_column, page_params, paginate, select_by_id_query,
    select_custom_query, select_one_by_column_query, select_page_query, select_range_query,
    sort_columns, AutoTable, QueryError,
};
use auto_table::sql_helpers::ColumnDefinition;
use auto_table::value::{AtValue, SqlError};

fn col(name: &str, pk: bool, sort: Option<&str>) -> ColumnDefinition {
    ColumnDefinition {
        name: name.to_string(),
        sql_type: "INTEGER".to_string(),
        nullable: false,
        primary_key: pk,
        sort_by: sort.map(|s| s.to_string()),
        default: None,
    }
}

#[derive(Debug, PartialEq)]
struct Point {
    x: i64,
    y: i64,
}

impl AutoTable for Point {
    fn table_name() -> &'static str {
        "points"
    }
    fn indexes() -> Option<String> {
        None
    }
    fn column_definitions() -> Vec<ColumnDefinition> {
        vec![col("x", true, None), col("y", false, Some("ASC"))]
    }
    fn to_sql_values(&self) -> Result<Vec<AtValue>, SqlError> {
        Ok(vec![AtValue::Integer(self.x), AtValue::Integer(self.y)])
    }
    fn from_sql_values(values: &[AtValue]) -> Result<Self, SqlError> {
        if values.len() != 2 {
            return Err(SqlError::ColumnCountMismatch);
        }
        match (&values[0], &values[1]) {
            (AtValue::Integer(x), AtValue::Integer(y)) => Ok(Point { x: *x, y: *y }),
            _ => Err(SqlError::InvalidData("x".to_string())),
        }
    }
}

#[test]
fn id_column_is_first_primary_key() {
    let cols = vec![col("a", false, None), col("b", true, None), col("c", true, None)];
    assert_eq!(id_column(&cols).map(|c| c.name), Some("b".to_string()));
    assert_eq!(id_column(&vec![col("a", false, None)]), None);
    assert_eq!(Point::get_id_column().map(|c| c.name), Some("x".to_string()));
}

#[test]
fn sort_columns_keep_directed_columns() {
    let cols = vec![col("a", false, Some("DESC")), col("b", true, None), col("c", false, Some("ASC"))];
    let s: Vec<String> = sort_columns(&cols).into_iter().map(|c| c.name).collect();
    assert_eq!(s, vec!["a".to_string(), "c".to_string()]);
    assert_eq!(Point::get_sort_columns().len(), 1);
}

#[test]
fn query_by_id() {
    let cols = Point::column_definitions();
    assert_eq!(
        select_by_id_query("points", &cols, &Some(col("x", true, None))),
        Ok("SELECT x,y FROM points WHERE x = ? LIMIT 1".to_string())
    );
    assert_eq!(select_by_id_query("points", &cols, &None), Err(QueryError::NoIdColumn));
}

#[test]
fn query_by_column() {
    let cols = Point::column_definitions();
    assert_eq!(
        select_one_by_column_query("points", &cols, "y"),
        "SELECT x,y FROM points WHERE y = ? LIMIT 1"
    );
}

#[test]
fn query_in_range() {
    let cols = Point::column_definitions();
    let sort = Point::get_sort_columns();
    assert_eq!(
        select_range_query("points", &cols, &sort),
        "SELECT x,y FROM points ORDER BY y ASC LIMIT ? OFFSET ?"
    );
    assert_eq!(
        select_range_query("points", &cols, &vec![]),
        "SELECT x,y FROM points  LIMIT ? OFFSET ?"
    );
}

#[test]
fn query_page_and_custom() {
    let cols = Point::column_definitions();
    let sort = Point::get_sort_columns();
    assert_eq!(
        select_page_query("points", &cols, &sort, "WHERE x > 3"),
        "SELECT x,y FROM points WHERE x > 3 ORDER BY y ASC LIMIT ? OFFSET ?"
    );
    assert_eq!(
        select_custom_query("points", &cols, &sort, "WHERE x > 3", true),
        "SELECT x,y FROM points WHERE x > 3 ORDER BY y ASC"
    );
    assert_eq!(
        select_custom_query("points", &cols, &sort, "WHERE x > 3", false),
        "SELECT x,y FROM points WHERE x > 3 "
    );
    assert_eq!(count_query("points"), "SELECT Count(*) FROM points");
}

#[test]
fn pages_and_params() {
    assert_eq!(page_params(3, 100), (100, 300));
    let p = paginate(250, 1, 100, vec![1, 2]);
    assert_eq!(p.pages, 2);
    assert_eq!(p.count, 250);
    assert_eq!(p.page, 1);
    assert_eq!(p.page_size, 100);
    assert_eq!(p.content, vec![1, 2]);
    assert_eq!(paginate::<u8>(99, 0, 100, vec![]).pages, 0);
}

#[test]
fn first_of_entries() {
    assert_eq!(first_entry(vec![3, 4]), Some(3));
    assert_eq!(first_entry(Vec::<u8>::new()), None);
}

#[test]
fn rows_decode_in_order() {
    let rows = vec![
        vec![AtValue::Integer(1), AtValue::Integer(2)],
        vec![AtValue::Integer(3), AtValue::Integer(4)],
    ];
    assert_eq!(decode_rows::<Point>(&rows), Ok(vec![Point { x: 1, y: 2 }, Point { x: 3, y: 4 }]));
    let bad = vec![vec![AtValue::Integer(1)], vec![AtValue::Null, AtValue::Null]];
    assert_eq!(decode_rows::<Point>(&bad), Err(SqlError::ColumnCountMismatch));
}
