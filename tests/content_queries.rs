use echoes_storage::config::{setup_step, Init};
use echoes_storage::content_queries::{
    delete_all_fields_query, delete_fields_query, get_setting_query, insert_field_query,
    insert_setting_query, insert_user_query, select_fields_query, update_field_query,
};
use echoes_storage::error::SqlError;
use echoes_storage::fields::{FieldType, TargetType};
use echoes_storage::records::{RegisterData, Role};
use echoes_storage::validator::ValidationLevel;
use echoes_storage::value::{DatabaseType, SafeValue};

fn text(s: &str, l: ValidationLevel) -> SafeValue {
    SafeValue::Text(s.to_string(), l)
}

#[test]
fn insert_field_statement() {
    let b = insert_field_query("echoes_", DatabaseType::PostgreSQL, TargetType::Post, 7, FieldType::Meta, "k", "{\"a\":1}").unwrap();
    let (sql, params) = b.build().unwrap();
    assert_eq!(
        sql,
        "INSERT INTO echoes_fields (target_type, target_id, field_type, field_key, field_value) VALUES ($1, $2, $3, $4, $5)"
    );
    assert_eq!(
        params,
        vec![
            text("post", ValidationLevel::Strict),
            SafeValue::Integer(7),
            text("meta", ValidationLevel::Raw),
            text("k", ValidationLevel::Raw),
            text("{\"a\":1}", ValidationLevel::Raw),
        ]
    );
}

#[test]
fn select_fields_statement() {
    let b = select_fields_query("p_", DatabaseType::SQLite, TargetType::Page, 3).unwrap();
    let (sql, params) = b.build().unwrap();
    assert_eq!(
        sql,
        "SELECT field_type, field_key, field_value FROM p_fields WHERE ((target_id = ?) AND (target_type = ?))"
    );
    assert_eq!(params, vec![SafeValue::Integer(3), text("page", ValidationLevel::Standard)]);
}

#[test]
fn delete_statements_filter_rows() {
    let b = delete_fields_query("p_", DatabaseType::PostgreSQL, TargetType::Theme, 1, FieldType::Data, "color").unwrap();
    let (sql, params) = b.build().unwrap();
    assert_eq!(
        sql,
        "DELETE FROM p_fields WHERE ((target_id = $1) AND (target_type = $2) AND (field_type = $3) AND (field_key = $4))"
    );
    assert_eq!(params.len(), 4);
    let b = delete_all_fields_query("p_", DatabaseType::MySQL, TargetType::System, 0).unwrap();
    let (sql, _) = b.build().unwrap();
    assert_eq!(sql, "DELETE FROM p_fields WHERE ((target_id = ?) AND (target_type = ?))");
}

#[test]
fn update_field_statement() {
    let b = update_field_query("", DatabaseType::PostgreSQL, TargetType::Post, 9, FieldType::Data, "k", "v").unwrap();
    let (sql, params) = b.build().unwrap();
    assert_eq!(
        sql,
        "UPDATE fields SET field_value = $1 WHERE ((target_type = $2) AND (target_id = $3) AND (field_type = $4) AND (field_key = $5))"
    );
    assert_eq!(params[0], text("v", ValidationLevel::Raw));
    assert_eq!(params[2], SafeValue::Integer(9));
}

#[test]
fn bad_prefix_is_rejected() {
    assert!(insert_field_query("9x", DatabaseType::SQLite, TargetType::Post, 1, FieldType::Data, "k", "v").is_err());
    assert!(get_setting_query("a b", DatabaseType::SQLite, "system", "x").is_err());
}

fn user(email: &str) -> RegisterData {
    RegisterData {
        username: "alice".to_string(),
        email: email.to_string(),
        password: "secret".to_string(),
        role: Role::Administrator,
    }
}

#[test]
fn insert_user_statement() {
    let b = insert_user_query("e_", DatabaseType::MySQL, &user("alice@example.com"), "$2b$hash".to_string()).unwrap();
    let (sql, params) = b.build().unwrap();
    assert_eq!(sql, "INSERT INTO e_users (username, email, password_hash, role) VALUES (?, ?, ?, ?)");
    assert_eq!(params[3], text("administrator", ValidationLevel::Strict));
}

#[test]
fn insert_user_checks_email() {
    for bad in ["alice", "alice@example", "@example.com", "alice@.com", "a@b."] {
        assert_eq!(
            insert_user_query("e_", DatabaseType::MySQL, &user(bad), "h".to_string()).unwrap_err(),
            SqlError::InvalidEmail(bad.to_string()),
            "{}",
            bad
        );
    }
    assert!(insert_user_query("e_", DatabaseType::MySQL, &user("x a.b@c-d.e_f y"), "h".to_string()).is_ok());
}

#[test]
fn settings_statements() {
    let (sql, params) = get_setting_query("e_", DatabaseType::PostgreSQL, "theme", "dark").unwrap().build().unwrap();
    assert_eq!(sql, "SELECT data FROM e_settings WHERE (name = $1)");
    assert_eq!(params, vec![text("theme_dark", ValidationLevel::Strict)]);
    let (sql, params) = insert_setting_query("e_", DatabaseType::SQLite, "system", "site", "{\"x\": 1}").unwrap().build().unwrap();
    assert_eq!(sql, "INSERT INTO e_settings (name, data) VALUES (?, ?)");
    assert_eq!(params[1], text("{\"x\": 1}", ValidationLevel::Relaxed));
}

#[test]
fn setup_steps() {
    let mut init = Init::default();
    assert_eq!(setup_step(&init), 1);
    init.sql = true;
    assert_eq!(setup_step(&init), 2);
    init.administrator = true;
    assert_eq!(setup_step(&init), 3);
}

#[test]
fn administrator_password_statement() {
    let b = echoes_storage::content_queries::administrator_password_query("e_", DatabaseType::PostgreSQL, "root").unwrap();
    let (sql, params) = b.build().unwrap();
    assert_eq!(sql, "SELECT password_hash FROM e_users WHERE ((username = $1) AND (role = $2))");
    assert_eq!(params, vec![text("root", ValidationLevel::Relaxed), text("administrator", ValidationLevel::Standard)]);
}
