//! The fixed relational model of the content-management system: users,
//! pages, posts, resources, custom fields, taxonomies and the post/taxonomy
//! join table, each name carrying a configurable prefix.

use vstd::prelude::*;
use crate::error::SqlError;
use crate::identifier::identifier_grammar;
use crate::schema::{
    check_text, lemma_schema_renders, schema_text, table_model, table_renders, ColumnModel, IndexModel, ReferenceModel, TableModel, Field, FieldConstraint, FieldType,
    ForeignKeyAction, Index, SchemaBuilder, Table,
};
use crate::predicate::{Condition, Operator, WhereClause};
use crate::validator::{
    ascii_upper, ddl_failure, has_control_char, has_sql_pattern, lemma_free_of_sql_patterns,
    lemma_strict_word, uppercase_of, TextValidator, ValidationLevel,
};
use vstd::utf8::is_ascii_chars;
use crate::value::{literal_text, table_name, DatabaseType, SafeValue};

verus! {

/// The table names, in declaration order, before the prefix.
pub open spec fn table_suffixes() -> Seq<Seq<char>> {
    seq![
        "users"@, "pages"@, "posts"@, "resources"@, "fields"@, "taxonomies"@,
        "post_taxonomies"@,
    ]
}

/// The content model under prefix `p`: every table with its columns (type,
/// key, uniqueness, nullability, default, CHECK and reference with its
/// actions) and its indexes, in declaration order. Every reference names a
/// table declared no later, and a primary or unique column of it.
pub open spec fn content_tables(p: Seq<char>) -> Seq<TableModel> {
    seq![
        TableModel {
            name: p + "users"@,
            columns: seq![
            ColumnModel {
                name: "username"@, field_type: FieldType::VarChar(100), primary: true, unique: false, nullable: false,
                default: None, check: None, reference: None,
            },
            ColumnModel {
                name: "avatar_url"@, field_type: FieldType::VarChar(255), primary: false, unique: false, nullable: true,
                default: None, check: None, reference: None,
            },
            ColumnModel {
                name: "email"@, field_type: FieldType::VarChar(255), primary: false, unique: true, nullable: false,
                default: None, check: None, reference: None,
            },
            ColumnModel {
                name: "password_hash"@, field_type: FieldType::VarChar(255), primary: false, unique: false, nullable: false,
                default: None, check: None, reference: None,
            },
            ColumnModel {
                name: "role"@, field_type: FieldType::VarChar(20), primary: false, unique: false, nullable: false,
                default: None, check: Some(Some("role"@ + " "@ + "IN"@ + " "@ + ROLE_LIST@)), reference: None,
            },
            ColumnModel {
                name: "created_at"@, field_type: FieldType::Timestamp, primary: false, unique: false, nullable: false,
                default: Some(Some("CURRENT_TIMESTAMP"@)), check: None, reference: None,
            },
            ColumnModel {
                name: "updated_at"@, field_type: FieldType::Timestamp, primary: false, unique: false, nullable: false,
                default: Some(Some("CURRENT_TIMESTAMP"@)), check: None, reference: None,
            },
            ],
            indexes: seq![],
        },
        TableModel {
            name: p + "pages"@,
            columns: seq![
            ColumnModel {
                name: "id"@, field_type: FieldType::Integer(true), primary: true, unique: false, nullable: false,
                default: None, check: None, reference: None,
            },
            ColumnModel {
                name: "title"@, field_type: FieldType::VarChar(255), primary: false, unique: false, nullable: false,
                default: None, check: None, reference: None,
            },
            ColumnModel {
                name: "content"@, field_type: FieldType::Text, primary: false, unique: false, nullable: false,
                default: None, check: None, reference: None,
            },
            ColumnModel {
                name: "is_editor"@, field_type: FieldType::Boolean, primary: false, unique: false, nullable: false,
                default: Some(Some("false"@)), check: None, reference: None,
            },
            ColumnModel {
                name: "draft_content"@, field_type: FieldType::Text, primary: false, unique: false, nullable: true,
                default: None, check: None, reference: None,
            },
            ColumnModel {
                name: "template"@, field_type: FieldType::VarChar(50), primary: false, unique: false, nullable: true,
                default: None, check: None, reference: None,
            },
            ColumnModel {
                name: "status"@, field_type: FieldType::VarChar(20), primary: false, unique: false, nullable: false,
                default: None, check: Some(Some("status"@ + " "@ + "IN"@ + " "@ + STATUS_LIST@)), reference: None,
            },
            ],
            indexes: seq![],
        },
        TableModel {
            name: p + "posts"@,
            columns: seq![
            ColumnModel {
                name: "id"@, field_type: FieldType::Integer(true), primary: true, unique: false, nullable: false,
                default: None, check: None, reference: None,
            },
            ColumnModel {
                name: "author_name"@, field_type: FieldType::VarChar(100), primary: false, unique: false, nullable: false,
                default: None, check: None, reference: Some(ReferenceModel { table: p + "users"@, column: "username"@, on_delete: Some(ForeignKeyAction::Cascade), on_update: Some(ForeignKeyAction::Cascade) }),
            },
            ColumnModel {
                name: "cover_image"@, field_type: FieldType::VarChar(255), primary: false, unique: false, nullable: true,
                default: None, check: None, reference: None,
            },
            ColumnModel {
                name: "title"@, field_type: FieldType::VarChar(255), primary: false, unique: false, nullable: true,
                default: None, check: None, reference: None,
            },
            ColumnModel {
                name: "content"@, field_type: FieldType::Text, primary: false, unique: false, nullable: false,
                default: None, check: None, reference: None,
            },
            ColumnModel {
                name: "status"@, field_type: FieldType::VarChar(20), primary: false, unique: false, nullable: false,
                default: None, check: Some(Some("status"@ + " "@ + "IN"@ + " "@ + STATUS_LIST@)), reference: None,
            },
            ColumnModel {
                name: "is_editor"@, field_type: FieldType::Boolean, primary: false, unique: false, nullable: false,
                default: Some(Some("false"@)), check: None, reference: None,
            },
            ColumnModel {
                name: "draft_content"@, field_type: FieldType::Text, primary: false, unique: false, nullable: true,
                default: None, check: None, reference: None,
            },
            ColumnModel {
                name: "created_at"@, field_type: FieldType::Timestamp, primary: false, unique: false, nullable: false,
                default: Some(Some("CURRENT_TIMESTAMP"@)), check: None, reference: None,
            },
            ColumnModel {
                name: "updated_at"@, field_type: FieldType::Timestamp, primary: false, unique: false, nullable: false,
                default: Some(Some("CURRENT_TIMESTAMP"@)), check: None, reference: None,
            },
            ],
            indexes: seq![],
        },
        TableModel {
            name: p + "resources"@,
            columns: seq![
            ColumnModel {
                name: "id"@, field_type: FieldType::Integer(true), primary: true, unique: false, nullable: false,
                default: None, check: None, reference: None,
            },
            ColumnModel {
                name: "author_id"@, field_type: FieldType::VarChar(100), primary: false, unique: false, nullable: false,
                default: None, check: None, reference: Some(ReferenceModel { table: p + "users"@, column: "username"@, on_delete: Some(ForeignKeyAction::Cascade), on_update: Some(ForeignKeyAction::Cascade) }),
            },
            ColumnModel {
                name: "name"@, field_type: FieldType::VarChar(255), primary: false, unique: false, nullable: false,
                default: None, check: None, reference: None,
            },
            ColumnModel {
                name: "size_bytes"@, field_type: FieldType::BigInt, primary: false, unique: false, nullable: false,
                default: None, check: None, reference: None,
            },
            ColumnModel {
                name: "storage_path"@, field_type: FieldType::VarChar(255), primary: false, unique: true, nullable: false,
                default: None, check: None, reference: None,
            },
            ColumnModel {
                name: "mime_type"@, field_type: FieldType::VarChar(50), primary: false, unique: false, nullable: false,
                default: None, check: None, reference: None,
            },
            ColumnModel {
                name: "category"@, field_type: FieldType::VarChar(50), primary: false, unique: false, nullable: true,
                default: None, check: None, reference: None,
            },
            ColumnModel {
                name: "description"@, field_type: FieldType::VarChar(255), primary: false, unique: false, nullable: true,
                default: None, check: None, reference: None,
            },
            ColumnModel {
                name: "created_at"@, field_type: FieldType::Timestamp, primary: false, unique: false, nullable: false,
                default: Some(Some("CURRENT_TIMESTAMP"@)), check: None, reference: None,
            },
            ],
            indexes: seq![],
        },
        TableModel {
            name: p + "fields"@,
            columns: seq![
            ColumnModel {
                name: "target_type"@, field_type: FieldType::VarChar(20), primary: true, unique: false, nullable: false,
                default: None, check: None, reference: None,
            },
            ColumnModel {
                name: "target_id"@, field_type: FieldType::Integer(false), primary: true, unique: false, nullable: false,
                default: None, check: None, reference: None,
            },
            ColumnModel {
                name: "field_type"@, field_type: FieldType::VarChar(50), primary: true, unique: false, nullable: false,
                default: None, check: None, reference: None,
            },
            ColumnModel {
                name: "field_key"@, field_type: FieldType::VarChar(50), primary: true, unique: false, nullable: false,
                default: None, check: None, reference: None,
            },
            ColumnModel {
                name: "field_value"@, field_type: FieldType::Text, primary: false, unique: false, nullable: true,
                default: None, check: None, reference: None,
            },
            ],
            indexes: seq![IndexModel { name: "idx_fields_target"@, columns: seq!["target_type"@, "target_id"@], unique: false }],
        },
        TableModel {
            name: p + "taxonomies"@,
            columns: seq![
            ColumnModel {
                name: "name"@, field_type: FieldType::VarChar(50), primary: true, unique: false, nullable: false,
                default: None, check: None, reference: None,
            },
            ColumnModel {
                name: "slug"@, field_type: FieldType::VarChar(50), primary: false, unique: true, nullable: false,
                default: None, check: None, reference: None,
            },
            ColumnModel {
                name: "type"@, field_type: FieldType::VarChar(20), primary: false, unique: false, nullable: false,
                default: None, check: None, reference: None,
            },
            ColumnModel {
                name: "parent_name"@, field_type: FieldType::VarChar(50), primary: false, unique: false, nullable: true,
                default: None, check: None, reference: Some(ReferenceModel { table: p + "taxonomies"@, column: "name"@, on_delete: Some(ForeignKeyAction::SetNull), on_update: Some(ForeignKeyAction::Cascade) }),
            },
            ],
            indexes: seq![],
        },
        TableModel {
            name: p + "post_taxonomies"@,
            columns: seq![
            ColumnModel {
                name: "post_id"@, field_type: FieldType::Integer(false), primary: false, unique: false, nullable: false,
                default: None, check: None, reference: Some(ReferenceModel { table: p + "posts"@, column: "id"@, on_delete: Some(ForeignKeyAction::Cascade), on_update: Some(ForeignKeyAction::Cascade) }),
            },
            ColumnModel {
                name: "taxonomy_name"@, field_type: FieldType::VarChar(50), primary: false, unique: false, nullable: false,
                default: None, check: None, reference: Some(ReferenceModel { table: p + "taxonomies"@, column: "name"@, on_delete: Some(ForeignKeyAction::Cascade), on_update: Some(ForeignKeyAction::Cascade) }),
            },
            ],
            indexes: seq![IndexModel { name: "pk_post_taxonomies"@, columns: seq!["post_id"@, "taxonomy_name"@], unique: true }],
        },
    ]
}

/// The roles a user may have, as an SQL list.
pub const ROLE_LIST: &'static str = "('administrator', 'visitor')";

/// The states of a page or post, as an SQL list.
pub const STATUS_LIST: &'static str = "('draft', 'published', 'private')";

proof fn lemma_role_list_clean()
    ensures
        is_ascii_chars(ROLE_LIST@),
        !has_sql_pattern(ascii_upper(ROLE_LIST@)),
        !has_control_char(ROLE_LIST@),
{
    reveal_strlit("('administrator', 'visitor')");
    lemma_free_of_sql_patterns(ascii_upper(ROLE_LIST@));
}

proof fn lemma_status_list_clean()
    ensures
        is_ascii_chars(STATUS_LIST@),
        !has_sql_pattern(ascii_upper(STATUS_LIST@)),
        !has_control_char(STATUS_LIST@),
{
    reveal_strlit("('draft', 'published', 'private')");
    lemma_free_of_sql_patterns(ascii_upper(STATUS_LIST@));
}

/// The CHECK `field IN list`, the list given as Raw text; also tells the
/// uppercase form of the list, which the DDL scan reads.
fn in_list(field: &str, list: &str) -> (r: Result<WhereClause, SqlError>)
    ensures
        r is Ok <==> identifier_grammar(field@),
        r matches Ok(w) ==> check_text(w) == (if ddl_failure(list@) is None {
            Some(field@ + " "@ + "IN"@ + " "@ + list@)
        } else {
            None
        }),
        is_ascii_chars(list@) ==> uppercase_of(list@) == ascii_upper(list@),
{
    // Scanning the list once establishes the uppercase form that the DDL check reads.
    let _scan = TextValidator::new().check_ddl_text(list);
    let c = Condition::new(
        String::from_str(field),
        Operator::In,
        Some(SafeValue::Text(String::from_str(list), ValidationLevel::Raw)),
    )?;
    Ok(WhereClause::Condition(c))
}

proof fn lemma_current_timestamp_clean()
    ensures
        is_ascii_chars("CURRENT_TIMESTAMP"@),
        !has_sql_pattern(ascii_upper("CURRENT_TIMESTAMP"@)),
        !has_control_char("CURRENT_TIMESTAMP"@),
        !has_sql_pattern("CURRENT_TIMESTAMP"@),
        ascii_upper("CURRENT_TIMESTAMP"@) == "CURRENT_TIMESTAMP"@,
{
    reveal_strlit("CURRENT_TIMESTAMP");
    assert(ascii_upper("CURRENT_TIMESTAMP"@) =~= "CURRENT_TIMESTAMP"@);
    lemma_free_of_sql_patterns(ascii_upper("CURRENT_TIMESTAMP"@));
}

/// `CURRENT_TIMESTAMP`, as a Strict text default that passes the DDL checks.
fn now_default() -> (r: SafeValue)
    ensures
        r matches SafeValue::Text(t, l) && t@ == "CURRENT_TIMESTAMP"@ && l == ValidationLevel::Strict,
        literal_text(r) == Some("CURRENT_TIMESTAMP"@),
{
    let word = String::from_str("CURRENT_TIMESTAMP");
    proof {
        reveal_strlit("CURRENT_TIMESTAMP");
        lemma_strict_word("CURRENT_TIMESTAMP"@);
        lemma_current_timestamp_clean();
    }
    // Scanning the word once establishes the uppercase form that the DDL check reads.
    let _scan = TextValidator::new().check_ddl_text(word.as_str());
    assert(ddl_failure(word@) is None);
    SafeValue::Text(word, ValidationLevel::Strict)
}

fn users_table(prefix: &String) -> (r: Result<Table, SqlError>)
    ensures
        r is Ok <==> identifier_grammar(prefix@ + "users"@),
        r matches Ok(t) ==> table_model(t) == content_tables(prefix@)[0],
        r matches Ok(t) ==> t.name@ == prefix@ + "users"@ && table_renders(t),
{
    proof {
        lemma_role_list_clean();
        reveal_strlit("avatar_url");
        reveal_strlit("created_at");
        reveal_strlit("email");
        reveal_strlit("password_hash");
        reveal_strlit("role");
        reveal_strlit("updated_at");
        reveal_strlit("username");
    }
    let mut t = Table::new(table_name(prefix.as_str(), "users").as_str())?;
    t.add_field(Field::new("username", FieldType::VarChar(100), FieldConstraint::new().primary())?);
    t.add_field(Field::new("avatar_url", FieldType::VarChar(255), FieldConstraint::new())?);
    t.add_field(Field::new("email", FieldType::VarChar(255), FieldConstraint::new().unique().not_null())?);
    t.add_field(Field::new("password_hash", FieldType::VarChar(255), FieldConstraint::new().not_null())?);
    t.add_field(Field::new("role", FieldType::VarChar(20), FieldConstraint::new().not_null().check(in_list("role", ROLE_LIST)?))?);
    t.add_field(Field::new("created_at", FieldType::Timestamp, FieldConstraint::new().not_null().default(now_default()))?);
    t.add_field(Field::new("updated_at", FieldType::Timestamp, FieldConstraint::new().not_null().default(now_default()))?);
    assert(table_model(t).columns =~= content_tables(prefix@)[0].columns);
    assert(table_model(t).indexes =~= content_tables(prefix@)[0].indexes);
    Ok(t)
}

fn pages_table(prefix: &String) -> (r: Result<Table, SqlError>)
    ensures
        r is Ok <==> identifier_grammar(prefix@ + "pages"@),
        r matches Ok(t) ==> table_model(t) == content_tables(prefix@)[1],
        r matches Ok(t) ==> t.name@ == prefix@ + "pages"@ && table_renders(t),
{
    proof {
        lemma_status_list_clean();
        reveal_strlit("content");
        reveal_strlit("draft_content");
        reveal_strlit("id");
        reveal_strlit("is_editor");
        reveal_strlit("status");
        reveal_strlit("template");
        reveal_strlit("title");
    }
    let mut t = Table::new(table_name(prefix.as_str(), "pages").as_str())?;
    t.add_field(Field::new("id", FieldType::Integer(true), FieldConstraint::new().primary())?);
    t.add_field(Field::new("title", FieldType::VarChar(255), FieldConstraint::new().not_null())?);
    t.add_field(Field::new("content", FieldType::Text, FieldConstraint::new().not_null())?);
    t.add_field(Field::new("is_editor", FieldType::Boolean, FieldConstraint::new().not_null().default(SafeValue::Bool(false)))?);
    t.add_field(Field::new("draft_content", FieldType::Text, FieldConstraint::new())?);
    t.add_field(Field::new("template", FieldType::VarChar(50), FieldConstraint::new())?);
    t.add_field(Field::new("status", FieldType::VarChar(20), FieldConstraint::new().not_null().check(in_list("status", STATUS_LIST)?))?);
    assert(table_model(t).columns =~= content_tables(prefix@)[1].columns);
    assert(table_model(t).indexes =~= content_tables(prefix@)[1].indexes);
    Ok(t)
}

fn posts_table(prefix: &String) -> (r: Result<Table, SqlError>)
    ensures
        r is Ok <==> identifier_grammar(prefix@ + "posts"@),
        r matches Ok(t) ==> table_model(t) == content_tables(prefix@)[2],
        r matches Ok(t) ==> t.name@ == prefix@ + "posts"@ && (identifier_grammar(prefix@ + "users"@) ==> table_renders(t)),
{
    proof {
        lemma_status_list_clean();
        reveal_strlit("author_name");
        reveal_strlit("content");
        reveal_strlit("cover_image");
        reveal_strlit("created_at");
        reveal_strlit("draft_content");
        reveal_strlit("id");
        reveal_strlit("is_editor");
        reveal_strlit("status");
        reveal_strlit("title");
        reveal_strlit("updated_at");
        reveal_strlit("username");
    }
    let mut t = Table::new(table_name(prefix.as_str(), "posts").as_str())?;
    t.add_field(Field::new("id", FieldType::Integer(true), FieldConstraint::new().primary())?);
    t.add_field(Field::new(
        "author_name",
        FieldType::VarChar(100),
        FieldConstraint::new().not_null().foreign_key(table_name(prefix.as_str(), "users"), String::from_str("username"))
            .on_delete(ForeignKeyAction::Cascade).on_update(ForeignKeyAction::Cascade),
    )?);
    t.add_field(Field::new("cover_image", FieldType::VarChar(255), FieldConstraint::new())?);
    t.add_field(Field::new("title", FieldType::VarChar(255), FieldConstraint::new())?);
    t.add_field(Field::new("content", FieldType::Text, FieldConstraint::new().not_null())?);
    t.add_field(Field::new("status", FieldType::VarChar(20), FieldConstraint::new().not_null().check(in_list("status", STATUS_LIST)?))?);
    t.add_field(Field::new("is_editor", FieldType::Boolean, FieldConstraint::new().not_null().default(SafeValue::Bool(false)))?);
    t.add_field(Field::new("draft_content", FieldType::Text, FieldConstraint::new())?);
    t.add_field(Field::new("created_at", FieldType::Timestamp, FieldConstraint::new().not_null().default(now_default()))?);
    t.add_field(Field::new("updated_at", FieldType::Timestamp, FieldConstraint::new().not_null().default(now_default()))?);
    assert(table_model(t).columns =~= content_tables(prefix@)[2].columns);
    assert(table_model(t).indexes =~= content_tables(prefix@)[2].indexes);
    Ok(t)
}

fn resources_table(prefix: &String) -> (r: Result<Table, SqlError>)
    ensures
        r is Ok <==> identifier_grammar(prefix@ + "resources"@),
        r matches Ok(t) ==> table_model(t) == content_tables(prefix@)[3],
        r matches Ok(t) ==> t.name@ == prefix@ + "resources"@ && (identifier_grammar(prefix@ + "users"@) ==> table_renders(t)),
{
    proof {
        reveal_strlit("author_id");
        reveal_strlit("category");
        reveal_strlit("created_at");
        reveal_strlit("description");
        reveal_strlit("id");
        reveal_strlit("mime_type");
        reveal_strlit("name");
        reveal_strlit("size_bytes");
        reveal_strlit("storage_path");
        reveal_strlit("username");
    }
    let mut t = Table::new(table_name(prefix.as_str(), "resources").as_str())?;
    t.add_field(Field::new("id", FieldType::Integer(true), FieldConstraint::new().primary())?);
    t.add_field(Field::new(
        "author_id",
        FieldType::VarChar(100),
        FieldConstraint::new().not_null().foreign_key(table_name(prefix.as_str(), "users"), String::from_str("username"))
            .on_delete(ForeignKeyAction::Cascade).on_update(ForeignKeyAction::Cascade),
    )?);
    t.add_field(Field::new("name", FieldType::VarChar(255), FieldConstraint::new().not_null())?);
    t.add_field(Field::new("size_bytes", FieldType::BigInt, FieldConstraint::new().not_null())?);
    t.add_field(Field::new("storage_path", FieldType::VarChar(255), FieldConstraint::new().not_null().unique())?);
    t.add_field(Field::new("mime_type", FieldType::VarChar(50), FieldConstraint::new().not_null())?);
    t.add_field(Field::new("category", FieldType::VarChar(50), FieldConstraint::new())?);
    t.add_field(Field::new("description", FieldType::VarChar(255), FieldConstraint::new())?);
    t.add_field(Field::new("created_at", FieldType::Timestamp, FieldConstraint::new().not_null().default(now_default()))?);
    assert(table_model(t).columns =~= content_tables(prefix@)[3].columns);
    assert(table_model(t).indexes =~= content_tables(prefix@)[3].indexes);
    Ok(t)
}

fn fields_table(prefix: &String) -> (r: Result<Table, SqlError>)
    ensures
        r is Ok <==> identifier_grammar(prefix@ + "fields"@),
        r matches Ok(t) ==> table_model(t) == content_tables(prefix@)[4],
        r matches Ok(t) ==> t.name@ == prefix@ + "fields"@ && table_renders(t),
{
    proof {
        reveal_strlit("field_key");
        reveal_strlit("field_type");
        reveal_strlit("field_value");
        reveal_strlit("idx_fields_target");
        reveal_strlit("target_id");
        reveal_strlit("target_type");
    }
    let mut t = Table::new(table_name(prefix.as_str(), "fields").as_str())?;
    t.add_field(Field::new("target_type", FieldType::VarChar(20), FieldConstraint::new().not_null().primary())?);
    t.add_field(Field::new("target_id", FieldType::Integer(false), FieldConstraint::new().not_null().primary())?);
    t.add_field(Field::new("field_type", FieldType::VarChar(50), FieldConstraint::new().not_null().primary())?);
    t.add_field(Field::new("field_key", FieldType::VarChar(50), FieldConstraint::new().not_null().primary())?);
    t.add_field(Field::new("field_value", FieldType::Text, FieldConstraint::new())?);
    let mut cols: Vec<String> = Vec::new();
    cols.push(String::from_str("target_type"));
    cols.push(String::from_str("target_id"));
    assert(cols@.map_values(|s: String| s@) =~= seq!["target_type"@, "target_id"@]);
    t.add_index(Index::new("idx_fields_target", cols, false)?);
    assert(table_model(t).columns =~= content_tables(prefix@)[4].columns);
    assert(table_model(t).indexes[0].columns =~= seq!["target_type"@, "target_id"@]);
    assert(table_model(t).indexes =~= content_tables(prefix@)[4].indexes);
    Ok(t)
}

fn taxonomies_table(prefix: &String) -> (r: Result<Table, SqlError>)
    ensures
        r is Ok <==> identifier_grammar(prefix@ + "taxonomies"@),
        r matches Ok(t) ==> table_model(t) == content_tables(prefix@)[5],
        r matches Ok(t) ==> t.name@ == prefix@ + "taxonomies"@ && (identifier_grammar(prefix@ + "taxonomies"@) ==> table_renders(t)),
{
    proof {
        reveal_strlit("name");
        reveal_strlit("parent_name");
        reveal_strlit("slug");
        reveal_strlit("type");
    }
    let mut t = Table::new(table_name(prefix.as_str(), "taxonomies").as_str())?;
    t.add_field(Field::new("name", FieldType::VarChar(50), FieldConstraint::new().primary())?);
    t.add_field(Field::new("slug", FieldType::VarChar(50), FieldConstraint::new().not_null().unique())?);
    t.add_field(Field::new("type", FieldType::VarChar(20), FieldConstraint::new().not_null())?);
    t.add_field(Field::new(
        "parent_name",
        FieldType::VarChar(50),
        FieldConstraint::new().foreign_key(table_name(prefix.as_str(), "taxonomies"), String::from_str("name"))
            .on_delete(ForeignKeyAction::SetNull).on_update(ForeignKeyAction::Cascade),
    )?);
    assert(table_model(t).columns =~= content_tables(prefix@)[5].columns);
    assert(table_model(t).indexes =~= content_tables(prefix@)[5].indexes);
    Ok(t)
}

fn post_taxonomies_table(prefix: &String) -> (r: Result<Table, SqlError>)
    ensures
        r is Ok <==> identifier_grammar(prefix@ + "post_taxonomies"@),
        r matches Ok(t) ==> table_model(t) == content_tables(prefix@)[6],
        r matches Ok(t) ==> t.name@ == prefix@ + "post_taxonomies"@ && (identifier_grammar(prefix@ + "posts"@) && identifier_grammar(prefix@ + "taxonomies"@) ==> table_renders(t)),
{
    proof {
        reveal_strlit("id");
        reveal_strlit("name");
        reveal_strlit("pk_post_taxonomies");
        reveal_strlit("post_id");
        reveal_strlit("taxonomy_name");
    }
    let mut t = Table::new(table_name(prefix.as_str(), "post_taxonomies").as_str())?;
    t.add_field(Field::new(
        "post_id",
        FieldType::Integer(false),
        FieldConstraint::new().not_null().foreign_key(table_name(prefix.as_str(), "posts"), String::from_str("id"))
            .on_delete(ForeignKeyAction::Cascade).on_update(ForeignKeyAction::Cascade),
    )?);
    t.add_field(Field::new(
        "taxonomy_name",
        FieldType::VarChar(50),
        FieldConstraint::new().not_null().foreign_key(table_name(prefix.as_str(), "taxonomies"), String::from_str("name"))
            .on_delete(ForeignKeyAction::Cascade).on_update(ForeignKeyAction::Cascade),
    )?);
    let mut cols: Vec<String> = Vec::new();
    cols.push(String::from_str("post_id"));
    cols.push(String::from_str("taxonomy_name"));
    assert(cols@.map_values(|s: String| s@) =~= seq!["post_id"@, "taxonomy_name"@]);
    t.add_index(Index::new("pk_post_taxonomies", cols, true)?);
    assert(table_model(t).columns =~= content_tables(prefix@)[6].columns);
    assert(table_model(t).indexes[0].columns =~= seq!["post_id"@, "taxonomy_name"@]);
    assert(table_model(t).indexes =~= content_tables(prefix@)[6].indexes);
    Ok(t)
}

/// The DDL of the whole content model in dialect `db_type`, every table name
/// prefixed with the literal of `db_prefix` (text validated at its level).
/// Fails when the prefix cannot be rendered or a prefixed name falls outside
/// the identifier grammar; on success the text is that of seven tables named
/// after the prefixed names whose models are those of `content_tables`, in
/// declaration order; by `lemma_schema_text_by_model` that text is fixed by
/// the model, one model serving all three dialects.
pub fn generate_schema(db_type: DatabaseType, db_prefix: SafeValue) -> (r: Result<String, SqlError>)
    ensures
        r is Ok <==> (literal_text(db_prefix) matches Some(p) && forall|k: int|
            0 <= k < 7 ==> identifier_grammar(p + #[trigger] table_suffixes()[k])),
        r matches Ok(s) ==> (literal_text(db_prefix) matches Some(p) && exists|ts: Seq<Table>|
            ts.len() == 7 && (forall|k: int| 0 <= k < 7 ==> #[trigger] ts[k].name@ == p + table_suffixes()[k])
                && (forall|k: int| 0 <= k < 7 ==> #[trigger] table_model(ts[k]) == content_tables(p)[k])
                && schema_text(ts, db_type) == Some(s@)),
{
    let prefix = db_prefix.to_string()?;
    let ghost p = prefix@;
    let users = match users_table(&prefix) {
        Ok(t) => t,
        Err(e) => {
            assert(!identifier_grammar(p + table_suffixes()[0]));
            return Err(e);
        },
    };
    let pages = match pages_table(&prefix) {
        Ok(t) => t,
        Err(e) => {
            assert(!identifier_grammar(p + table_suffixes()[1]));
            return Err(e);
        },
    };
    let posts = match posts_table(&prefix) {
        Ok(t) => t,
        Err(e) => {
            assert(!identifier_grammar(p + table_suffixes()[2]));
            return Err(e);
        },
    };
    let resources = match resources_table(&prefix) {
        Ok(t) => t,
        Err(e) => {
            assert(!identifier_grammar(p + table_suffixes()[3]));
            return Err(e);
        },
    };
    let fields = match fields_table(&prefix) {
        Ok(t) => t,
        Err(e) => {
            assert(!identifier_grammar(p + table_suffixes()[4]));
            return Err(e);
        },
    };
    let taxonomies = match taxonomies_table(&prefix) {
        Ok(t) => t,
        Err(e) => {
            assert(!identifier_grammar(p + table_suffixes()[5]));
            return Err(e);
        },
    };
    let post_taxonomies = match post_taxonomies_table(&prefix) {
        Ok(t) => t,
        Err(e) => {
            assert(!identifier_grammar(p + table_suffixes()[6]));
            return Err(e);
        },
    };
    let ghost ts = seq![users, pages, posts, resources, fields, taxonomies, post_taxonomies];
    let mut schema = SchemaBuilder::new();
    schema.add_table(users);
    schema.add_table(pages);
    schema.add_table(posts);
    schema.add_table(resources);
    schema.add_table(fields);
    schema.add_table(taxonomies);
    schema.add_table(post_taxonomies);
    assert(schema@ =~= ts);
    assert(forall|k: int| 0 <= k < 7 ==> #[trigger] ts[k].name@ == p + table_suffixes()[k]);
    assert(forall|k: int| 0 <= k < 7 ==> #[trigger] table_model(ts[k]) == content_tables(p)[k]);
    proof {
        if forall|k: int| 0 <= k < 7 ==> identifier_grammar(p + #[trigger] table_suffixes()[k]) {
            assert(identifier_grammar(p + table_suffixes()[0]));
            assert(identifier_grammar(p + table_suffixes()[2]));
            assert(identifier_grammar(p + table_suffixes()[5]));
            assert(forall|k: int| 0 <= k < 7 ==> table_renders(#[trigger] ts[k]));
            lemma_schema_renders(ts, db_type);
        }
    }
    schema.build(db_type)
}

/// Whether `r` names a primary or unique column of one of the first `n + 1`
/// tables of `ts`.
pub open spec fn reference_resolves(ts: Seq<TableModel>, n: int, r: ReferenceModel) -> bool {
    exists|j: int, m: int|
        0 <= j <= n && 0 <= m < ts[j].columns.len() && #[trigger] ts[j].columns[m].name == r.column
            && ts[j].name == r.table && (ts[j].columns[m].primary || ts[j].columns[m].unique)
}

/// In the content model every reference names a table declared no later
/// than the referencing one, and a primary or unique column of that table.
pub proof fn content_references_resolve(p: Seq<char>)
    ensures
        forall|k: int, i: int|
            0 <= k < 7 && 0 <= i < content_tables(p)[k].columns.len()
                && content_tables(p)[k].columns[i].reference is Some ==> reference_resolves(
                content_tables(p),
                k,
                #[trigger] content_tables(p)[k].columns[i].reference.unwrap(),
            ),
{
    let ts = content_tables(p);
    assert(ts[0].columns[0].name == "username"@);
    assert(ts[2].columns[0].name == "id"@);
    assert(ts[5].columns[0].name == "name"@);
    assert forall|k: int, i: int|
        0 <= k < 7 && 0 <= i < ts[k].columns.len() && ts[k].columns[i].reference is Some implies reference_resolves(
        ts,
        k,
        #[trigger] ts[k].columns[i].reference.unwrap(),
    ) by {
        if k == 2 || k == 3 {
            assert(ts[0].columns[0].name == ts[k].columns[i].reference.unwrap().column);
        } else if k == 5 {
            assert(ts[5].columns[0].name == ts[k].columns[i].reference.unwrap().column);
        } else if k == 6 {
            if i == 0 {
                assert(ts[2].columns[0].name == ts[k].columns[i].reference.unwrap().column);
            } else {
                assert(ts[5].columns[0].name == ts[k].columns[i].reference.unwrap().column);
            }
        }
    }
}

} // verus!
