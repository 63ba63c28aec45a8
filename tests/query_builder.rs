use echoes_storage::error::{SqlError, ValidationFailure};
use echoes_storage::predicate::{Condition, Operator, WhereClause};
use echoes_storage::query::{QueryBuilder, SqlOperation};
use echoes_storage::validator::ValidationLevel;
use echoes_storage::value::{DatabaseType, SafeValue};

fn cond(field: &str, op: Operator, value: Option<SafeValue>) -> WhereClause {
    WhereClause::Condition(Condition::new(field.to_string(), op, value).unwrap())
}

fn select_ab(d: DatabaseType) -> QueryBuilder {
    let mut b = QueryBuilder::new(SqlOperation::Select, "t".to_string(), d).unwrap();
    b.add_field("a".to_string()).unwrap();
    b.add_field("b".to_string()).unwrap();
    b.add_condition(cond("id", Operator::Eq, Some(SafeValue::Integer(5))));
    b
}

#[test]
fn select_with_condition_postgres() {
    let (sql, params) = select_ab(DatabaseType::PostgreSQL).build().unwrap();
    assert_eq!(sql, "SELECT a, b FROM t WHERE (id = $1)");
    assert_eq!(params, vec![SafeValue::Integer(5)]);
}

#[test]
fn select_with_condition_sqlite_and_mysql() {
    for d in [DatabaseType::SQLite, DatabaseType::MySQL] {
        let (sql, params) = select_ab(d).build().unwrap();
        assert_eq!(sql, "SELECT a, b FROM t WHERE (id = ?)");
        assert_eq!(params, vec![SafeValue::Integer(5)]);
    }
}

#[test]
fn select_without_fields_projects_star() {
    let b = QueryBuilder::new(SqlOperation::Select, "posts".to_string(), DatabaseType::MySQL).unwrap();
    let (sql, params) = b.build().unwrap();
    assert_eq!(sql, "SELECT * FROM posts");
    assert!(params.is_empty());
}

#[test]
fn insert_inlines_null() {
    let mut b = QueryBuilder::new(SqlOperation::Insert, "users".to_string(), DatabaseType::PostgreSQL).unwrap();
    b.set_value("name".to_string(), SafeValue::Text("bob".to_string(), ValidationLevel::Standard)).unwrap();
    b.set_value("avatar".to_string(), SafeValue::Null).unwrap();
    let (sql, params) = b.build().unwrap();
    assert_eq!(sql, "INSERT INTO users (name, avatar) VALUES ($1, NULL)");
    assert_eq!(params, vec![SafeValue::Text("bob".to_string(), ValidationLevel::Standard)]);
}

#[test]
fn insert_null_first_keeps_numbering() {
    let mut b = QueryBuilder::new(SqlOperation::Insert, "users".to_string(), DatabaseType::PostgreSQL).unwrap();
    b.set_value("avatar".to_string(), SafeValue::Null).unwrap();
    b.set_value("name".to_string(), SafeValue::Integer(3)).unwrap();
    let (sql, params) = b.build().unwrap();
    assert_eq!(sql, "INSERT INTO users (avatar, name) VALUES (NULL, $1)");
    assert_eq!(params, vec![SafeValue::Integer(3)]);
}

#[test]
fn set_value_twice_keeps_position() {
    let mut b = QueryBuilder::new(SqlOperation::Insert, "t".to_string(), DatabaseType::SQLite).unwrap();
    b.set_value("a".to_string(), SafeValue::Integer(1)).unwrap();
    b.set_value("b".to_string(), SafeValue::Integer(2)).unwrap();
    b.set_value("a".to_string(), SafeValue::Integer(9)).unwrap();
    let (sql, params) = b.build().unwrap();
    assert_eq!(sql, "INSERT INTO t (a, b) VALUES (?, ?)");
    assert_eq!(params, vec![SafeValue::Integer(9), SafeValue::Integer(2)]);
}

#[test]
fn update_numbers_where_after_values() {
    let mut b = QueryBuilder::new(SqlOperation::Update, "fields".to_string(), DatabaseType::PostgreSQL).unwrap();
    b.set_value("v".to_string(), SafeValue::Integer(7)).unwrap();
    b.set_value("w".to_string(), SafeValue::Null).unwrap();
    b.add_condition(WhereClause::And(vec![
        cond("a", Operator::Eq, Some(SafeValue::Integer(1))),
        cond("b", Operator::Gt, Some(SafeValue::Integer(2))),
    ]));
    let (sql, params) = b.build().unwrap();
    assert_eq!(sql, "UPDATE fields SET v = $1, w = NULL WHERE ((a = $2) AND (b > $3))");
    assert_eq!(params, vec![SafeValue::Integer(7), SafeValue::Integer(1), SafeValue::Integer(2)]);
}

#[test]
fn delete_with_where_and_pagination() {
    let mut b = QueryBuilder::new(SqlOperation::Delete, "t".to_string(), DatabaseType::MySQL).unwrap();
    b.add_condition(cond("x", Operator::IsNull, None));
    b.set_order_by("id".to_string()).unwrap();
    b.set_limit(10);
    b.set_offset(20);
    let (sql, params) = b.build().unwrap();
    assert_eq!(sql, "DELETE FROM t WHERE (x IS NULL) ORDER BY id LIMIT 10 OFFSET 20");
    assert!(params.is_empty());
}

#[test]
fn nested_where_clause_order() {
    let w = WhereClause::And(vec![
        cond("a", Operator::Eq, Some(SafeValue::Integer(1))),
        WhereClause::Or(vec![
            cond("b", Operator::Eq, Some(SafeValue::Integer(2))),
            cond("c", Operator::Eq, Some(SafeValue::Integer(3))),
        ]),
    ]);
    let mut params = Vec::new();
    let sql = w.compile(DatabaseType::SQLite, &mut params);
    assert_eq!(sql, "((a = ?) AND ((b = ?) OR (c = ?)))");
    assert_eq!(params, vec![SafeValue::Integer(1), SafeValue::Integer(2), SafeValue::Integer(3)]);
    let mut params = Vec::new();
    let sql = w.compile(DatabaseType::PostgreSQL, &mut params);
    assert_eq!(sql, "((a = $1) AND ((b = $2) OR (c = $3)))");
    assert_eq!(params, vec![SafeValue::Integer(1), SafeValue::Integer(2), SafeValue::Integer(3)]);
}

#[test]
fn compile_continues_numbering() {
    let w = cond("a", Operator::Lte, Some(SafeValue::Integer(4)));
    let mut params = vec![SafeValue::Bool(true), SafeValue::Integer(0)];
    let sql = w.compile(DatabaseType::PostgreSQL, &mut params);
    assert_eq!(sql, "(a <= $3)");
    assert_eq!(params.len(), 3);
}

#[test]
fn not_clause_and_null_value() {
    let c = Condition::new("deleted".to_string(), Operator::Ne, Some(SafeValue::Null)).unwrap();
    let w = WhereClause::Not(c);
    let mut params = Vec::new();
    let sql = w.compile(DatabaseType::PostgreSQL, &mut params);
    assert_eq!(sql, "NOT (deleted != NULL)");
    assert!(params.is_empty());
}

#[test]
fn build_twice_is_identical() {
    let mut b = QueryBuilder::new(SqlOperation::Update, "t".to_string(), DatabaseType::PostgreSQL).unwrap();
    b.set_value("a".to_string(), SafeValue::Integer(1)).unwrap();
    b.add_condition(cond("id", Operator::Eq, Some(SafeValue::Integer(2))));
    let first = b.build().unwrap();
    let second = b.build().unwrap();
    assert_eq!(first, second);
}

#[test]
fn build_rejects_invalid_bound_text() {
    let mut b = QueryBuilder::new(SqlOperation::Insert, "t".to_string(), DatabaseType::SQLite).unwrap();
    b.set_value("a".to_string(), SafeValue::Text("fine".to_string(), ValidationLevel::Strict)).unwrap();
    b.set_value("b".to_string(), SafeValue::Text("drop table x".to_string(), ValidationLevel::Relaxed)).unwrap();
    b.set_value("c".to_string(), SafeValue::Text("a b".to_string(), ValidationLevel::Strict)).unwrap();
    assert_eq!(
        b.build().unwrap_err(),
        SqlError::Validation(ValidationFailure::SqlPattern, "drop table x".to_string(), ValidationLevel::Relaxed)
    );
}

#[test]
fn build_rejects_invalid_text_in_where() {
    let mut b = QueryBuilder::new(SqlOperation::Select, "t".to_string(), DatabaseType::PostgreSQL).unwrap();
    b.add_condition(cond("name", Operator::Eq, Some(SafeValue::Text("x;y".to_string(), ValidationLevel::Standard))));
    assert_eq!(
        b.build().unwrap_err(),
        SqlError::Validation(ValidationFailure::InvalidChar, "x;y".to_string(), ValidationLevel::Standard)
    );
}

#[test]
fn build_accepts_raw_text() {
    let mut b = QueryBuilder::new(SqlOperation::Insert, "t".to_string(), DatabaseType::SQLite).unwrap();
    b.set_value("a".to_string(), SafeValue::Text("drop table x; --".to_string(), ValidationLevel::Raw)).unwrap();
    let (sql, params) = b.build().unwrap();
    assert_eq!(sql, "INSERT INTO t (a) VALUES (?)");
    assert_eq!(params.len(), 1);
}

#[test]
fn invalid_names_are_rejected() {
    assert_eq!(
        QueryBuilder::new(SqlOperation::Select, "1t".to_string(), DatabaseType::SQLite).unwrap_err(),
        SqlError::InvalidIdentifier("1t".to_string())
    );
    let mut b = QueryBuilder::new(SqlOperation::Select, "t".to_string(), DatabaseType::SQLite).unwrap();
    assert!(b.add_field("a; DROP".to_string()).is_err());
    assert!(b.set_value("".to_string(), SafeValue::Null).is_err());
    assert!(b.set_order_by("x y".to_string()).is_err());
    let (sql, _) = b.build().unwrap();
    assert_eq!(sql, "SELECT * FROM t");
}

#[test]
fn condition_value_presence() {
    assert!(matches!(
        Condition::new("a".to_string(), Operator::Eq, None),
        Err(SqlError::MissingValue(f)) if f == "a"
    ));
    assert!(matches!(
        Condition::new("a".to_string(), Operator::IsNotNull, Some(SafeValue::Integer(1))),
        Err(SqlError::UnexpectedValue(f)) if f == "a"
    ));
    assert!(matches!(
        Condition::new("9a".to_string(), Operator::IsNull, None),
        Err(SqlError::InvalidIdentifier(f)) if f == "9a"
    ));
    let c = Condition::new("a".to_string(), Operator::IsNotNull, None).unwrap();
    let mut params = Vec::new();
    assert_eq!(WhereClause::Condition(c).compile(DatabaseType::MySQL, &mut params), "(a IS NOT NULL)");
}

#[test]
fn operator_spellings() {
    assert_eq!(Operator::Eq.as_str(), "=");
    assert_eq!(Operator::Ne.as_str(), "!=");
    assert_eq!(Operator::Gte.as_str(), ">=");
    assert_eq!(Operator::Like.as_str(), "LIKE");
    assert_eq!(Operator::IsNull.as_str(), "IS NULL");
}

#[test]
fn large_placeholder_numbers() {
    let mut b = QueryBuilder::new(SqlOperation::Insert, "t".to_string(), DatabaseType::PostgreSQL).unwrap();
    for i in 0..12 {
        b.set_value(format!("c{}", i), SafeValue::Integer(i)).unwrap();
    }
    let (sql, params) = b.build().unwrap();
    assert!(sql.ends_with("$10, $11, $12)"));
    assert_eq!(params.len(), 12);
}

#[test]
fn insert_interleaved_nulls() {
    let mut b = QueryBuilder::new(SqlOperation::Insert, "t".to_string(), DatabaseType::PostgreSQL).unwrap();
    b.set_value("a".to_string(), SafeValue::Null).unwrap();
    b.set_value("b".to_string(), SafeValue::Integer(1)).unwrap();
    b.set_value("c".to_string(), SafeValue::Null).unwrap();
    b.set_value("d".to_string(), SafeValue::Bool(true)).unwrap();
    let (sql, params) = b.build().unwrap();
    assert_eq!(sql, "INSERT INTO t (a, b, c, d) VALUES (NULL, $1, NULL, $2)");
    assert_eq!(params, vec![SafeValue::Integer(1), SafeValue::Bool(true)]);
}

#[test]
fn condition_accessors() {
    let c = Condition::new("id".to_string(), Operator::Gt, Some(SafeValue::Integer(3))).unwrap();
    assert_eq!(c.field().as_str(), "id");
    assert_eq!(c.operator(), Operator::Gt);
    assert_eq!(c.value(), &Some(SafeValue::Integer(3)));
    let n = Condition::new("id".to_string(), Operator::IsNull, None).unwrap();
    assert!(n.value().is_none());
}
