use echoes_storage::config::{Init, NoSqlConfig, SqlConfig};
use echoes_storage::fields::{FieldType, TargetType};
use echoes_storage::records::{Role, SecretKey, SystemConfigure};
use echoes_storage::value::{table_name, DatabaseType};

#[test]
fn target_types_parse_in_any_case() {
    assert_eq!(TargetType::from_str("post").unwrap(), TargetType::Post);
    assert_eq!(TargetType::from_str("PAGE").unwrap(), TargetType::Page);
    assert_eq!(TargetType::from_str("Theme").unwrap(), TargetType::Theme);
    assert_eq!(TargetType::from_str("system").unwrap(), TargetType::System);
    assert!(TargetType::from_str("posts").is_err());
    assert_eq!(TargetType::Theme.as_str(), "theme");
}

#[test]
fn field_types_parse_in_any_case() {
    assert_eq!(FieldType::from_str("DATA").unwrap(), FieldType::Data);
    assert_eq!(FieldType::from_str("meta").unwrap(), FieldType::Meta);
    assert!(FieldType::from_str("").is_err());
    assert_eq!(FieldType::Meta.as_str(), "meta");
}

#[test]
fn dialect_tags() {
    assert_eq!(DatabaseType::from_tag("PostgreSQL").unwrap(), DatabaseType::PostgreSQL);
    assert_eq!(DatabaseType::from_tag("mysql").unwrap(), DatabaseType::MySQL);
    assert_eq!(DatabaseType::from_tag("sqllite").unwrap(), DatabaseType::SQLite);
    assert!(DatabaseType::from_tag("oracle").is_err());
    assert_eq!(DatabaseType::SQLite.name(), "sqlite");
    assert_eq!(table_name("echoes_", "users"), "echoes_users");
}

#[test]
fn defaults_and_names() {
    let c = SqlConfig::default();
    assert_eq!(c.db_type, "sqllite");
    assert_eq!(c.db_prefix, "echoes_");
    assert_eq!(NoSqlConfig::default().port, 5432);
    assert!(!Init::default().administrator);
    assert_eq!(SystemConfigure::default().admin_path, "admin");
    assert_eq!(Role::Administrator.as_str(), "administrator");
    assert_eq!(SecretKey::Verifying.as_string(), "verifying");
}
