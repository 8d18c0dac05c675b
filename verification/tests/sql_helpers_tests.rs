use auto_table::sql_helpers::{
    generate_create_table, generate_insert_into, generate_order_clause, generate_select_clause,
    no_params, table_info_query, validate_table_name, ColumnDefinition,
};

fn col(name: &str, sql_type: &str) -> ColumnDefinition {
    ColumnDefinition {
        name: name.to_string(),
        sql_type: sql_type.to_string(),
        nullable: false,
        primary_key: false,
        sort_by: None,
        default: None,
    }
}

fn message_columns() -> Vec<ColumnDefinition> {
    let mut id = col("id", "INTEGER");
    id.primary_key = true;
    let author = col("author_id", "INTEGER");
    let mut nonce = col("nonce_id", "INTEGER");
    nonce.nullable = true;
    let mut content = col("content", "TEXT");
    content.default = Some("'none'".to_string());
    let mut sent = col("sent_at", "BIGINT");
    sent.sort_by = Some("DESC".to_string());
    vec![id, author, nonce, content, sent]
}

#[test]
fn column_to_sql_forms() {
    let cols = message_columns();
    assert_eq!(cols[0].to_sql(), "id INTEGER PRIMARY KEY");
    assert_eq!(cols[1].to_sql(), "author_id INTEGER NOT NULL");
    assert_eq!(cols[2].to_sql(), "nonce_id INTEGER");
    assert_eq!(cols[3].to_sql(), "content TEXT NOT NULL DEFAULT 'none'");
}

#[test]
fn create_table_lists_every_column() {
    let cols = message_columns();
    assert_eq!(
        generate_create_table("messages", &cols),
        "CREATE TABLE messages (id INTEGER PRIMARY KEY, author_id INTEGER NOT NULL, nonce_id INTEGER, content TEXT NOT NULL DEFAULT 'none', sent_at BIGINT NOT NULL)"
    );
    assert_eq!(generate_create_table("t", &vec![]), "CREATE TABLE t ()");
}

#[test]
fn select_clause_names_columns_in_order() {
    assert_eq!(
        generate_select_clause(&message_columns()),
        "SELECT id,author_id,nonce_id,content,sent_at"
    );
    assert_eq!(generate_select_clause(&vec![col("a", "TEXT")]), "SELECT a");
}

#[test]
fn select_clause_without_columns() {
    assert_eq!(generate_select_clause(&vec![]), "SELECT");
}

#[test]
fn order_clause_with_and_without_direction() {
    let mut a = col("sent_at", "BIGINT");
    a.sort_by = Some("DESC".to_string());
    let b = col("id", "INTEGER");
    assert_eq!(generate_order_clause(&vec![a, b]), "ORDER BY sent_at DESC,id");
    assert_eq!(generate_order_clause(&vec![]), "");
}

#[test]
fn insert_has_one_placeholder_per_column() {
    assert_eq!(
        generate_insert_into("messages", &message_columns()),
        "INSERT OR REPLACE INTO messages (id,author_id,nonce_id,content,sent_at) VALUES (?,?,?,?,?)"
    );
    assert_eq!(
        generate_insert_into("t", &vec![col("a", "TEXT")]),
        "INSERT OR REPLACE INTO t (a) VALUES (?)"
    );
}

#[test]
fn insert_without_columns_degenerates() {
    assert_eq!(generate_insert_into("t", &vec![]), "INSERT OR REPLACE INTO t ) VALUES )");
}

#[test]
fn no_params_is_empty() {
    assert!(no_params().is_empty());
}

#[test]
fn table_names_alphanumeric_or_underscore() {
    assert_eq!(validate_table_name("user_messages2"), Ok("user_messages2"));
    assert_eq!(validate_table_name(""), Ok(""));
    assert_eq!(validate_table_name("tåble"), Ok("tåble"));
    assert_eq!(validate_table_name("bad-name"), Err("Invalid table name".to_string()));
    assert_eq!(validate_table_name("x; DROP TABLE y"), Err("Invalid table name".to_string()));
}

#[test]
fn table_info_query_checks_name() {
    assert_eq!(table_info_query("users"), Ok("PRAGMA table_info(users)".to_string()));
    assert_eq!(table_info_query("us ers"), Err("Invalid table name".to_string()));
}

#[test]
fn ascii_table_names() {
    assert_eq!(validate_table_name("users"), Ok("users"));
    assert_eq!(validate_table_name("user_messages2"), Ok("user_messages2"));
    assert!(validate_table_name("users;drop").is_err());
    assert!(validate_table_name("a-b").is_err());
}
