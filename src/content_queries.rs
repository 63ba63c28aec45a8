//! The statements behind the content handlers: custom fields, users and
//! settings, each built for the configured table prefix and dialect. The
//! handlers run them against the database.

use vstd::prelude::*;
use crate::error::SqlError;
use crate::fields::{field_tag, target_tag, FieldType, TargetType};
use crate::identifier::{contains_email, identifier_grammar, pattern_matches, EMAIL_PATTERN};
use crate::password::{generate_hash, is_fresh_hash};
use crate::records::{role_name, RegisterData, Role};
use crate::predicate::{Condition, Operator, WhereClause};
use crate::query::{QueryBuilder, QueryModel, SqlOperation};
use crate::validator::ValidationLevel;
use crate::value::{table_name, DatabaseType, SafeValue};

verus! {

/// Whether `v` is text spelling `s` at `level`.
pub open spec fn is_text(v: SafeValue, s: Seq<char>, level: ValidationLevel) -> bool {
    v matches SafeValue::Text(t, l) && t@ == s && l == level
}

/// Inserts one custom field of a piece of content.
pub fn insert_field_query(
    prefix: &str,
    db: DatabaseType,
    target_type: TargetType,
    target_id: i64,
    field_type: FieldType,
    field_key: &str,
    field_value: &str,
) -> (r: Result<QueryBuilder, SqlError>)
    ensures
        r is Ok <==> identifier_grammar(prefix@ + "fields"@),
        r matches Ok(b) ==> {
            let m = b@;
            &&& m.operation == SqlOperation::Insert
            &&& m.table == prefix@ + "fields"@
            &&& m.dialect == db
            &&& m.fields.len() == 0 && m.where_clause is None
            &&& m.order_by is None && m.limit is None && m.offset is None
            &&& m.values.len() == 5
            &&& m.values[0].0 == "target_type"@ && is_text(m.values[0].1, target_tag(target_type), ValidationLevel::Strict)
            &&& m.values[1].0 == "target_id"@ && m.values[1].1 == SafeValue::Integer(target_id)
            &&& m.values[2].0 == "field_type"@ && is_text(m.values[2].1, field_tag(field_type), ValidationLevel::Raw)
            &&& m.values[3].0 == "field_key"@ && is_text(m.values[3].1, field_key@, ValidationLevel::Raw)
            &&& m.values[4].0 == "field_value"@ && is_text(m.values[4].1, field_value@, ValidationLevel::Raw)
        },
{
    proof {
        reveal_strlit("target_type");
        reveal_strlit("target_id");
        reveal_strlit("field_type");
        reveal_strlit("field_key");
        reveal_strlit("field_value");
    }
    let mut b = QueryBuilder::new(SqlOperation::Insert, table_name(prefix, "fields"), db)?;
    b.set_value(String::from_str("target_type"), SafeValue::Text(String::from_str(target_type.as_str()), ValidationLevel::Strict))?;
    b.set_value(String::from_str("target_id"), SafeValue::Integer(target_id))?;
    b.set_value(String::from_str("field_type"), SafeValue::Text(String::from_str(field_type.as_str()), ValidationLevel::Raw))?;
    b.set_value(String::from_str("field_key"), SafeValue::Text(String::from_str(field_key), ValidationLevel::Raw))?;
    b.set_value(String::from_str("field_value"), SafeValue::Text(String::from_str(field_value), ValidationLevel::Raw))?;
    Ok(b)
}

/// Whether `w` is the leaf `field = v`.
pub open spec fn is_eq(w: WhereClause, field: Seq<char>, v: SafeValue) -> bool {
    w matches WhereClause::Condition(c) && c.spec_field() == field && c.spec_operator() == Operator::Eq
        && c.spec_value() == Some(v)
}

/// Whether `w` is the leaf `field = text` with the text at `level`.
pub open spec fn is_eq_text(w: WhereClause, field: Seq<char>, s: Seq<char>, level: ValidationLevel) -> bool {
    w matches WhereClause::Condition(c) && c.spec_field() == field && c.spec_operator() == Operator::Eq
        && (c.spec_value() matches Some(v) && is_text(v, s, level))
}

/// Whether a builder is otherwise untouched: no projection, values,
/// predicate, ordering or pagination beyond what the caller states.
pub open spec fn bare_except(m: QueryModel, op: SqlOperation, table: Seq<char>, db: DatabaseType) -> bool {
    &&& m.operation == op
    &&& m.table == table
    &&& m.dialect == db
    &&& m.order_by is None && m.limit is None && m.offset is None
}

fn eq_leaf(field: &str, v: SafeValue) -> (r: Result<WhereClause, SqlError>)
    ensures
        r is Ok <==> identifier_grammar(field@),
        r matches Ok(w) ==> is_eq(w, field@, v),
{
    let c = Condition::new(String::from_str(field), Operator::Eq, Some(v))?;
    Ok(WhereClause::Condition(c))
}

/// Selects the custom fields of one piece of content.
pub fn select_fields_query(prefix: &str, db: DatabaseType, target_type: TargetType, target_id: i64) -> (r: Result<QueryBuilder, SqlError>)
    ensures
        r is Ok <==> identifier_grammar(prefix@ + "fields"@),
        r matches Ok(b) ==> {
            let m = b@;
            &&& bare_except(m, SqlOperation::Select, prefix@ + "fields"@, db)
            &&& m.fields == seq!["field_type"@, "field_key"@, "field_value"@]
            &&& m.values.len() == 0
            &&& m.where_clause matches Some(WhereClause::And(cs)) && cs@.len() == 2
                && is_eq(cs@[0], "target_id"@, SafeValue::Integer(target_id))
                && is_eq_text(cs@[1], "target_type"@, target_tag(target_type), ValidationLevel::Standard)
        },
{
    proof {
        reveal_strlit("field_type");
        reveal_strlit("field_key");
        reveal_strlit("field_value");
        reveal_strlit("target_id");
        reveal_strlit("target_type");
    }
    let mut b = QueryBuilder::new(SqlOperation::Select, table_name(prefix, "fields"), db)?;
    b.add_field(String::from_str("field_type"))?;
    b.add_field(String::from_str("field_key"))?;
    b.add_field(String::from_str("field_value"))?;
    let mut cs: Vec<WhereClause> = Vec::new();
    cs.push(eq_leaf("target_id", SafeValue::Integer(target_id))?);
    cs.push(eq_leaf("target_type", SafeValue::Text(String::from_str(target_type.as_str()), ValidationLevel::Standard))?);
    b.add_condition(WhereClause::And(cs));
    Ok(b)
}

/// Deletes one custom field of a piece of content.
pub fn delete_fields_query(
    prefix: &str,
    db: DatabaseType,
    target_type: TargetType,
    target_id: i64,
    field_type: FieldType,
    field_key: &str,
) -> (r: Result<QueryBuilder, SqlError>)
    ensures
        r is Ok <==> identifier_grammar(prefix@ + "fields"@),
        r matches Ok(b) ==> {
            let m = b@;
            &&& bare_except(m, SqlOperation::Delete, prefix@ + "fields"@, db)
            &&& m.fields.len() == 0 && m.values.len() == 0
            &&& m.where_clause matches Some(WhereClause::And(cs)) && cs@.len() == 4
                && is_eq(cs@[0], "target_id"@, SafeValue::Integer(target_id))
                && is_eq_text(cs@[1], "target_type"@, target_tag(target_type), ValidationLevel::Standard)
                && is_eq_text(cs@[2], "field_type"@, field_tag(field_type), ValidationLevel::Standard)
                && is_eq_text(cs@[3], "field_key"@, field_key@, ValidationLevel::Standard)
        },
{
    proof {
        reveal_strlit("field_type");
        reveal_strlit("field_key");
        reveal_strlit("target_id");
        reveal_strlit("target_type");
    }
    let mut b = QueryBuilder::new(SqlOperation::Delete, table_name(prefix, "fields"), db)?;
    let mut cs: Vec<WhereClause> = Vec::new();
    cs.push(eq_leaf("target_id", SafeValue::Integer(target_id))?);
    cs.push(eq_leaf("target_type", SafeValue::Text(String::from_str(target_type.as_str()), ValidationLevel::Standard))?);
    cs.push(eq_leaf("field_type", SafeValue::Text(String::from_str(field_type.as_str()), ValidationLevel::Standard))?);
    cs.push(eq_leaf("field_key", SafeValue::Text(String::from_str(field_key), ValidationLevel::Standard))?);
    b.add_condition(WhereClause::And(cs));
    Ok(b)
}

/// Deletes every custom field of a piece of content.
pub fn delete_all_fields_query(prefix: &str, db: DatabaseType, target_type: TargetType, target_id: i64) -> (r: Result<QueryBuilder, SqlError>)
    ensures
        r is Ok <==> identifier_grammar(prefix@ + "fields"@),
        r matches Ok(b) ==> {
            let m = b@;
            &&& bare_except(m, SqlOperation::Delete, prefix@ + "fields"@, db)
            &&& m.fields.len() == 0 && m.values.len() == 0
            &&& m.where_clause matches Some(WhereClause::And(cs)) && cs@.len() == 2
                && is_eq(cs@[0], "target_id"@, SafeValue::Integer(target_id))
                && is_eq_text(cs@[1], "target_type"@, target_tag(target_type), ValidationLevel::Standard)
        },
{
    proof {
        reveal_strlit("target_id");
        reveal_strlit("target_type");
    }
    let mut b = QueryBuilder::new(SqlOperation::Delete, table_name(prefix, "fields"), db)?;
    let mut cs: Vec<WhereClause> = Vec::new();
    cs.push(eq_leaf("target_id", SafeValue::Integer(target_id))?);
    cs.push(eq_leaf("target_type", SafeValue::Text(String::from_str(target_type.as_str()), ValidationLevel::Standard))?);
    b.add_condition(WhereClause::And(cs));
    Ok(b)
}

/// Replaces the value of one custom field of a piece of content.
pub fn update_field_query(
    prefix: &str,
    db: DatabaseType,
    target_type: TargetType,
    target_id: i64,
    field_type: FieldType,
    field_key: &str,
    field_value: &str,
) -> (r: Result<QueryBuilder, SqlError>)
    ensures
        r is Ok <==> identifier_grammar(prefix@ + "fields"@),
        r matches Ok(b) ==> {
            let m = b@;
            &&& bare_except(m, SqlOperation::Update, prefix@ + "fields"@, db)
            &&& m.fields.len() == 0
            &&& m.values.len() == 1 && m.values[0].0 == "field_value"@
                && is_text(m.values[0].1, field_value@, ValidationLevel::Raw)
            &&& m.where_clause matches Some(WhereClause::And(cs)) && cs@.len() == 4
                && is_eq_text(cs@[0], "target_type"@, target_tag(target_type), ValidationLevel::Standard)
                && is_eq(cs@[1], "target_id"@, SafeValue::Integer(target_id))
                && is_eq_text(cs@[2], "field_type"@, field_tag(field_type), ValidationLevel::Standard)
                && is_eq_text(cs@[3], "field_key"@, field_key@, ValidationLevel::Standard)
        },
{
    proof {
        reveal_strlit("field_type");
        reveal_strlit("field_key");
        reveal_strlit("field_value");
        reveal_strlit("target_id");
        reveal_strlit("target_type");
    }
    let mut b = QueryBuilder::new(SqlOperation::Update, table_name(prefix, "fields"), db)?;
    b.set_value(String::from_str("field_value"), SafeValue::Text(String::from_str(field_value), ValidationLevel::Raw))?;
    let mut cs: Vec<WhereClause> = Vec::new();
    cs.push(eq_leaf("target_type", SafeValue::Text(String::from_str(target_type.as_str()), ValidationLevel::Standard))?);
    cs.push(eq_leaf("target_id", SafeValue::Integer(target_id))?);
    cs.push(eq_leaf("field_type", SafeValue::Text(String::from_str(field_type.as_str()), ValidationLevel::Standard))?);
    cs.push(eq_leaf("field_key", SafeValue::Text(String::from_str(field_key), ValidationLevel::Standard))?);
    b.add_condition(WhereClause::And(cs));
    Ok(b)
}

/// Inserts a user whose password is already hashed (bound as Raw text, as
/// precomputed payloads are); the address is Relaxed text. Fails with
/// `InvalidEmail` when the address lacks the shape `local@domain.suffix`.
pub fn insert_user_query(prefix: &str, db: DatabaseType, data: &RegisterData, password_hash: String) -> (r: Result<QueryBuilder, SqlError>)
    ensures
        r is Ok <==> contains_email(data.email@) && identifier_grammar(prefix@ + "users"@),
        !contains_email(data.email@) ==> (r matches Err(SqlError::InvalidEmail(e)) && e@ == data.email@),
        r matches Ok(b) ==> {
            let m = b@;
            &&& bare_except(m, SqlOperation::Insert, prefix@ + "users"@, db)
            &&& m.fields.len() == 0 && m.where_clause is None
            &&& m.values.len() == 4
            &&& m.values[0].0 == "username"@ && is_text(m.values[0].1, data.username@, ValidationLevel::Standard)
            &&& m.values[1].0 == "email"@ && is_text(m.values[1].1, data.email@, ValidationLevel::Relaxed)
            &&& m.values[2].0 == "password_hash"@ && is_text(m.values[2].1, password_hash@, ValidationLevel::Raw)
            &&& m.values[3].0 == "role"@ && is_text(m.values[3].1, role_name(data.role), ValidationLevel::Strict)
        },
{
    if !pattern_matches(EMAIL_PATTERN, data.email.as_str()) {
        return Err(SqlError::InvalidEmail(data.email.clone()));
    }
    proof {
        reveal_strlit("username");
        reveal_strlit("email");
        reveal_strlit("password_hash");
        reveal_strlit("role");
    }
    let mut b = QueryBuilder::new(SqlOperation::Insert, table_name(prefix, "users"), db)?;
    b.set_value(String::from_str("username"), SafeValue::Text(data.username.clone(), ValidationLevel::Standard))?;
    b.set_value(String::from_str("email"), SafeValue::Text(data.email.clone(), ValidationLevel::Relaxed))?;
    b.set_value(String::from_str("password_hash"), SafeValue::Text(password_hash, ValidationLevel::Raw))?;
    b.set_value(String::from_str("role"), SafeValue::Text(String::from_str(data.role.as_str()), ValidationLevel::Strict))?;
    Ok(b)
}

/// Hashes the new user's password, then builds the insert of
/// `insert_user_query` with that hash. Fails with `PasswordHash` when
/// hashing fails, and otherwise exactly as `insert_user_query` does.
pub fn register_user_query(prefix: &str, db: DatabaseType, data: &RegisterData) -> (r: Result<QueryBuilder, SqlError>)
    ensures
        !contains_email(data.email@) ==> r is Err,
        !identifier_grammar(prefix@ + "users"@) ==> r is Err,
        contains_email(data.email@) && identifier_grammar(prefix@ + "users"@) ==> (r is Ok || r matches Err(
            SqlError::PasswordHash(_))),
        r matches Ok(b) ==> {
            let m = b@;
            &&& bare_except(m, SqlOperation::Insert, prefix@ + "users"@, db)
            &&& m.fields.len() == 0 && m.where_clause is None
            &&& m.values.len() == 4
            &&& m.values[0].0 == "username"@ && is_text(m.values[0].1, data.username@, ValidationLevel::Standard)
            &&& m.values[1].0 == "email"@ && is_text(m.values[1].1, data.email@, ValidationLevel::Relaxed)
            &&& m.values[2].0 == "password_hash"@ && (m.values[2].1 matches SafeValue::Text(h, l)
                && l == ValidationLevel::Raw && is_fresh_hash(data.password@, h@))
            &&& m.values[3].0 == "role"@ && is_text(m.values[3].1, role_name(data.role), ValidationLevel::Strict)
        },
{
    let hash = match generate_hash(data.password.as_str()) {
        Ok(h) => h,
        Err(e) => {
            return Err(SqlError::PasswordHash(String::from_str(e.message())));
        },
    };
    insert_user_query(prefix, db, data, hash)
}

/// The stored name of a setting: its kind and name joined by `_`.
pub open spec fn setting_key(kind: Seq<char>, name: Seq<char>) -> Seq<char> {
    kind + "_"@ + name
}

fn setting_key_string(kind: &str, name: &str) -> (r: String)
    ensures
        r@ == setting_key(kind@, name@),
{
    let mut k = String::from_str(kind);
    k.append("_");
    k.append(name);
    k
}

/// Selects the data of one setting.
pub fn get_setting_query(prefix: &str, db: DatabaseType, kind: &str, name: &str) -> (r: Result<QueryBuilder, SqlError>)
    ensures
        r is Ok <==> identifier_grammar(prefix@ + "settings"@),
        r matches Ok(b) ==> {
            let m = b@;
            &&& bare_except(m, SqlOperation::Select, prefix@ + "settings"@, db)
            &&& m.fields == seq!["data"@]
            &&& m.values.len() == 0
            &&& m.where_clause matches Some(w) && is_eq_text(w, "name"@, setting_key(kind@, name@), ValidationLevel::Strict)
        },
{
    proof {
        reveal_strlit("data");
        reveal_strlit("name");
    }
    let mut b = QueryBuilder::new(SqlOperation::Select, table_name(prefix, "settings"), db)?;
    b.add_field(String::from_str("data"))?;
    let w = eq_leaf("name", SafeValue::Text(setting_key_string(kind, name), ValidationLevel::Strict))?;
    b.add_condition(w);
    Ok(b)
}

/// Inserts one setting with its data as text.
pub fn insert_setting_query(prefix: &str, db: DatabaseType, kind: &str, name: &str, data: &str) -> (r: Result<QueryBuilder, SqlError>)
    ensures
        r is Ok <==> identifier_grammar(prefix@ + "settings"@),
        r matches Ok(b) ==> {
            let m = b@;
            &&& bare_except(m, SqlOperation::Insert, prefix@ + "settings"@, db)
            &&& m.fields.len() == 0 && m.where_clause is None
            &&& m.values.len() == 2
            &&& m.values[0].0 == "name"@ && is_text(m.values[0].1, setting_key(kind@, name@), ValidationLevel::Strict)
            &&& m.values[1].0 == "data"@ && is_text(m.values[1].1, data@, ValidationLevel::Relaxed)
        },
{
    proof {
        reveal_strlit("data");
        reveal_strlit("name");
    }
    let mut b = QueryBuilder::new(SqlOperation::Insert, table_name(prefix, "settings"), db)?;
    b.set_value(String::from_str("name"), SafeValue::Text(setting_key_string(kind, name), ValidationLevel::Strict))?;
    b.set_value(String::from_str("data"), SafeValue::Text(String::from_str(data), ValidationLevel::Relaxed))?;
    Ok(b)
}

/// Selects the stored password hash of an administrator by user name.
pub fn administrator_password_query(prefix: &str, db: DatabaseType, username: &str) -> (r: Result<QueryBuilder, SqlError>)
    ensures
        r is Ok <==> identifier_grammar(prefix@ + "users"@),
        r matches Ok(b) ==> {
            let m = b@;
            &&& bare_except(m, SqlOperation::Select, prefix@ + "users"@, db)
            &&& m.fields == seq!["password_hash"@]
            &&& m.values.len() == 0
            &&& m.where_clause matches Some(WhereClause::And(cs)) && cs@.len() == 2
                && is_eq_text(cs@[0], "username"@, username@, ValidationLevel::Relaxed)
                && is_eq_text(cs@[1], "role"@, role_name(Role::Administrator), ValidationLevel::Standard)
        },
{
    proof {
        reveal_strlit("password_hash");
        reveal_strlit("username");
        reveal_strlit("role");
    }
    let mut b = QueryBuilder::new(SqlOperation::Select, table_name(prefix, "users"), db)?;
    b.add_field(String::from_str("password_hash"))?;
    let mut cs: Vec<WhereClause> = Vec::new();
    cs.push(eq_leaf("username", SafeValue::Text(String::from_str(username), ValidationLevel::Relaxed))?);
    cs.push(eq_leaf("role", SafeValue::Text(String::from_str(Role::Administrator.as_str()), ValidationLevel::Standard))?);
    b.add_condition(WhereClause::And(cs));
    Ok(b)
}

} // verus!
