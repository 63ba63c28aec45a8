use echoes_storage::content_schema::generate_schema;
use echoes_storage::error::{SqlError, ValidationFailure};
use echoes_storage::predicate::{Condition, Operator, WhereClause};
use echoes_storage::schema::{
    build_check_constraint, Field, FieldConstraint, FieldType, ForeignKeyAction, Index, SchemaBuilder, Table,
};
use echoes_storage::validator::ValidationLevel;
use echoes_storage::value::{DatabaseType, SafeValue, Timestamp};

fn id_table() -> Table {
    let mut t = Table::new("items").unwrap();
    t.add_field(Field::new("id", FieldType::Integer(true), FieldConstraint::new().primary()).unwrap());
    t.add_field(Field::new("flag", FieldType::Boolean, FieldConstraint::new().not_null().default(SafeValue::Bool(false))).unwrap());
    t.add_field(Field::new("at", FieldType::Timestamp, FieldConstraint::new()).unwrap());
    t
}

#[test]
fn table_ddl_per_dialect() {
    let t = id_table();
    assert_eq!(
        t.to_sql(DatabaseType::PostgreSQL).unwrap(),
        "CREATE TABLE items (\n    id INTEGER GENERATED ALWAYS AS IDENTITY NOT NULL PRIMARY KEY,\n    flag BOOLEAN NOT NULL DEFAULT false,\n    at TIMESTAMP WITH TIME ZONE\n);"
    );
    assert_eq!(
        t.to_sql(DatabaseType::MySQL).unwrap(),
        "CREATE TABLE items (\n    id INT AUTO_INCREMENT NOT NULL PRIMARY KEY,\n    flag BOOLEAN NOT NULL DEFAULT false,\n    at TIMESTAMP\n);"
    );
    assert_eq!(
        t.to_sql(DatabaseType::SQLite).unwrap(),
        "CREATE TABLE items (\n    id INTEGER NOT NULL PRIMARY KEY AUTOINCREMENT,\n    flag INTEGER NOT NULL DEFAULT false,\n    at TEXT\n);"
    );
}

#[test]
fn composite_key_and_index() {
    let mut t = Table::new("pairs").unwrap();
    t.add_field(Field::new("a", FieldType::VarChar(20), FieldConstraint::new().primary()).unwrap());
    t.add_field(Field::new("b", FieldType::BigInt, FieldConstraint::new().primary()).unwrap());
    t.add_index(Index::new("idx_pairs", vec!["a".to_string(), "b".to_string()], true).unwrap());
    assert_eq!(t.primary_keys(), vec!["a".to_string(), "b".to_string()]);
    assert_eq!(
        t.to_sql(DatabaseType::SQLite).unwrap(),
        "CREATE TABLE pairs (\n    a VARCHAR(20) NOT NULL,\n    b BIGINT NOT NULL,\n    CONSTRAINT pk_pairs PRIMARY KEY (a, b));\n\nCREATE UNIQUE INDEX idx_pairs ON pairs (a, b);"
    );
    assert_eq!(
        t.to_sql(DatabaseType::MySQL).unwrap(),
        "CREATE TABLE pairs (\n    a VARCHAR(20) NOT NULL,\n    b BIGINT NOT NULL,\n    PRIMARY KEY (a, b));\n\nCREATE UNIQUE INDEX idx_pairs ON pairs (a, b);"
    );
}

#[test]
fn foreign_key_clause() {
    let c = FieldConstraint::new()
        .not_null()
        .foreign_key("users".to_string(), "username".to_string())
        .on_delete(ForeignKeyAction::Cascade)
        .on_update(ForeignKeyAction::SetNull);
    let f = Field::new("author", FieldType::VarChar(100), c).unwrap();
    assert_eq!(
        f.to_sql(DatabaseType::PostgreSQL).unwrap(),
        "author VARCHAR(100) NOT NULL REFERENCES users(username) ON DELETE CASCADE ON UPDATE SET NULL"
    );
    let bad = Field::new(
        "author",
        FieldType::Text,
        FieldConstraint::new().foreign_key("users; --".to_string(), "id".to_string()),
    )
    .unwrap();
    assert_eq!(bad.to_sql(DatabaseType::MySQL).unwrap_err(), SqlError::InvalidIdentifier("users; --".to_string()));
}

#[test]
fn on_delete_without_reference_changes_nothing() {
    let c = FieldConstraint::new().on_delete(ForeignKeyAction::Restrict);
    assert!(c.foreign_key.is_none());
}

#[test]
fn check_constraints() {
    let role_in = Condition::new(
        "role".to_string(),
        Operator::In,
        Some(SafeValue::Text("('admin', 'visitor')".to_string(), ValidationLevel::Raw)),
    )
    .unwrap();
    let positive = Condition::new("n".to_string(), Operator::Gt, Some(SafeValue::Integer(-3))).unwrap();
    let w = WhereClause::Or(vec![WhereClause::Condition(role_in), WhereClause::Condition(positive)]);
    assert_eq!(build_check_constraint(&w).unwrap(), "(role IN ('admin', 'visitor') OR n > -3)");
    let like = Condition::new("n".to_string(), Operator::Like, Some(SafeValue::Integer(1))).unwrap();
    assert!(matches!(
        build_check_constraint(&WhereClause::Condition(like)),
        Err(SqlError::UnsupportedCheckOperator(f)) if f == "n"
    ));
    let in_int = Condition::new("n".to_string(), Operator::In, Some(SafeValue::Integer(1))).unwrap();
    assert!(matches!(
        build_check_constraint(&WhereClause::Not(in_int)),
        Err(SqlError::InvalidInValue(f)) if f == "n"
    ));
    let is_null = Condition::new("n".to_string(), Operator::IsNull, None).unwrap();
    assert_eq!(build_check_constraint(&WhereClause::Not(is_null)).unwrap(), "NOT (n IS NULL)");
}

#[test]
fn ddl_literals_are_scanned_whatever_their_level() {
    let bad = Condition::new(
        "role".to_string(),
        Operator::Eq,
        Some(SafeValue::Text("x; DROP TABLE users".to_string(), ValidationLevel::Raw)),
    )
    .unwrap();
    assert_eq!(
        build_check_constraint(&WhereClause::Condition(bad)).unwrap_err(),
        SqlError::Validation(ValidationFailure::SqlPattern, "x; DROP TABLE users".to_string(), ValidationLevel::Relaxed)
    );
    let f = Field::new(
        "note",
        FieldType::Text,
        FieldConstraint::new().default(SafeValue::Text("a -- b".to_string(), ValidationLevel::Raw)),
    )
    .unwrap();
    assert!(matches!(f.to_sql(DatabaseType::MySQL), Err(SqlError::Validation(ValidationFailure::SqlPattern, _, _))));
    let tab = Field::new(
        "note",
        FieldType::Text,
        FieldConstraint::new().default(SafeValue::Text("a\tb".to_string(), ValidationLevel::Raw)),
    )
    .unwrap();
    assert!(matches!(tab.to_sql(DatabaseType::MySQL), Err(SqlError::Validation(ValidationFailure::ControlChar, _, _))));
}

#[test]
fn field_with_check_and_default() {
    let status = Condition::new(
        "status".to_string(),
        Operator::Ne,
        Some(SafeValue::Text("draft".to_string(), ValidationLevel::Strict)),
    )
    .unwrap();
    let f = Field::new(
        "status",
        FieldType::VarChar(20),
        FieldConstraint::new().unique().check(WhereClause::Condition(status)),
    )
    .unwrap();
    assert_eq!(f.to_sql(DatabaseType::SQLite).unwrap(), "status VARCHAR(20) UNIQUE CHECK (status != draft)");
    let bad_default = Field::new(
        "x",
        FieldType::Text,
        FieldConstraint::new().default(SafeValue::Text("a b".to_string(), ValidationLevel::Strict)),
    )
    .unwrap();
    assert!(matches!(bad_default.to_sql(DatabaseType::SQLite), Err(SqlError::Validation(..))));
}

#[test]
fn literals_render() {
    assert_eq!(SafeValue::Null.to_string().unwrap(), "NULL");
    assert_eq!(SafeValue::Bool(true).to_string().unwrap(), "true");
    assert_eq!(SafeValue::Integer(i64::MIN).to_string().unwrap(), "-9223372036854775808");
    assert_eq!(SafeValue::Integer(0).to_string().unwrap(), "0");
    assert_eq!(
        SafeValue::DateTime(Timestamp { secs: 0, nanos: 0 }).to_string().unwrap(),
        "1970-01-01T00:00:00+00:00"
    );
    assert_eq!(
        SafeValue::DateTime(Timestamp { secs: i64::MAX, nanos: 0 }).to_string(),
        Err(SqlError::InvalidTimestamp)
    );
    assert_eq!(SafeValue::Integer(1).sql_type(), "INTEGER");
    assert_eq!(SafeValue::Text(String::new(), ValidationLevel::Raw).sql_type(), "TEXT");
}

#[test]
fn schema_builder_joins_tables() {
    let mut s = SchemaBuilder::new();
    s.add_table(Table::new("a").unwrap());
    s.add_table(Table::new("b").unwrap());
    assert_eq!(s.build(DatabaseType::MySQL).unwrap(), "CREATE TABLE a (\n    \n);\n\nCREATE TABLE b (\n    \n);\n\n");
}

#[test]
fn generated_schema_differs_by_dialect() {
    let prefix = || SafeValue::Text("echoes_".to_string(), ValidationLevel::Strict);
    let pg = generate_schema(DatabaseType::PostgreSQL, prefix()).unwrap();
    let my = generate_schema(DatabaseType::MySQL, prefix()).unwrap();
    let lite = generate_schema(DatabaseType::SQLite, prefix()).unwrap();
    assert_ne!(pg, my);
    assert_ne!(pg, lite);
    assert_ne!(my, lite);
    for ddl in [&pg, &my, &lite] {
        for table in ["users", "pages", "posts", "resources", "fields", "taxonomies", "post_taxonomies"] {
            assert!(ddl.contains(&format!("CREATE TABLE echoes_{} (", table)), "{}", table);
        }
        assert!(ddl.contains("REFERENCES echoes_users(username) ON DELETE CASCADE ON UPDATE CASCADE"));
        assert!(ddl.contains("CREATE INDEX idx_fields_target ON echoes_fields (target_type, target_id);"));
        assert!(ddl.contains("created_at"));
    }
    assert!(pg.contains("id INTEGER GENERATED ALWAYS AS IDENTITY NOT NULL PRIMARY KEY"));
    assert!(my.contains("id INT AUTO_INCREMENT NOT NULL PRIMARY KEY"));
    assert!(lite.contains("id INTEGER NOT NULL PRIMARY KEY AUTOINCREMENT"));
    assert!(lite.contains("CONSTRAINT pk_echoes_fields PRIMARY KEY (target_type, target_id, field_type, field_key)"));
    assert!(pg.contains("    PRIMARY KEY (target_type, target_id, field_type, field_key))"));
    assert!(lite.contains("is_editor INTEGER NOT NULL DEFAULT false"));
    assert!(pg.contains("is_editor BOOLEAN NOT NULL DEFAULT false"));
    assert!(pg.contains("created_at TIMESTAMP WITH TIME ZONE NOT NULL DEFAULT CURRENT_TIMESTAMP"));
    assert!(lite.contains("created_at TEXT NOT NULL DEFAULT CURRENT_TIMESTAMP"));
    assert!(pg.starts_with("CREATE TABLE echoes_users (\n    username VARCHAR(100) NOT NULL PRIMARY KEY,"));
    for ddl in [&pg, &my, &lite] {
        assert!(ddl.contains("role VARCHAR(20) NOT NULL CHECK (role IN ('administrator', 'visitor'))"));
        assert!(ddl.contains("status VARCHAR(20) NOT NULL CHECK (status IN ('draft', 'published', 'private'))"));
        assert!(ddl.contains("parent_name VARCHAR(50) REFERENCES echoes_taxonomies(name) ON DELETE SET NULL ON UPDATE CASCADE"));
        assert!(ddl.contains("CREATE UNIQUE INDEX pk_post_taxonomies ON echoes_post_taxonomies (post_id, taxonomy_name);"));
    }
}

#[test]
fn blog_prefix_schema_per_dialect() {
    let p = || SafeValue::Text("blog_".to_string(), ValidationLevel::Strict);
    let pg = generate_schema(DatabaseType::PostgreSQL, p()).unwrap();
    let my = generate_schema(DatabaseType::MySQL, p()).unwrap();
    let lite = generate_schema(DatabaseType::SQLite, p()).unwrap();
    assert!(pg != my && pg != lite && my != lite);
    assert!(pg.contains("GENERATED ALWAYS AS IDENTITY"));
    assert!(pg.contains("is_editor BOOLEAN"));
    assert!(pg.contains("created_at TIMESTAMP WITH TIME ZONE"));
    assert!(my.contains("AUTO_INCREMENT"));
    assert!(my.contains("is_editor BOOLEAN"));
    assert!(my.contains("created_at TIMESTAMP NOT NULL"));
    assert!(lite.contains("PRIMARY KEY AUTOINCREMENT"));
    assert!(lite.contains("is_editor INTEGER"));
    assert!(lite.contains("created_at TEXT"));
    assert!(lite.contains("CONSTRAINT pk_blog_fields PRIMARY KEY (target_type, target_id, field_type, field_key)"));
}

#[test]
fn generate_schema_rejects_bad_prefix() {
    let bad = SafeValue::Text("x-".to_string(), ValidationLevel::Strict);
    assert!(matches!(generate_schema(DatabaseType::SQLite, bad), Err(SqlError::Validation(..))));
    let digit = SafeValue::Text("1_".to_string(), ValidationLevel::Strict);
    assert!(matches!(generate_schema(DatabaseType::SQLite, digit), Err(SqlError::InvalidIdentifier(_))));
}
