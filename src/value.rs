//! Scalar values with their validation level, and how each renders as a
//! literal or as a bound-parameter placeholder in each SQL dialect.

use vstd::prelude::*;
use crate::error::{CustomError, SqlError};
use crate::text::{
    decimal, decimal_string, equals_literal, lowercase, lowercase_of, signed_decimal,
    signed_decimal_string,
};
use crate::validator::{ddl_failure, text_failure, validation_result, TextValidator, ValidationLevel};

verus! {

/// The SQL engines the library renders for.
#[derive(Clone, Copy, Debug, PartialEq, Eq, Hash, Structural)]
pub enum DatabaseType {
    PostgreSQL,
    MySQL,
    SQLite,
}

impl DatabaseType {
    /// The dialect's lower-case name.
    pub fn name(&self) -> (r: &'static str)
        ensures
            r@ == match self {
                DatabaseType::PostgreSQL => "postgresql"@,
                DatabaseType::MySQL => "mysql"@,
                DatabaseType::SQLite => "sqlite"@,
            },
    {
        match self {
            DatabaseType::PostgreSQL => "postgresql",
            DatabaseType::MySQL => "mysql",
            DatabaseType::SQLite => "sqlite",
        }
    }
}

/// The dialect named by a configuration tag (already lower-cased):
/// `postgresql`, `mysql` or `sqllite`.
pub open spec fn dialect_of_tag(lower: Seq<char>) -> Option<DatabaseType> {
    if lower == "postgresql"@ {
        Some(DatabaseType::PostgreSQL)
    } else if lower == "mysql"@ {
        Some(DatabaseType::MySQL)
    } else if lower == "sqllite"@ {
        Some(DatabaseType::SQLite)
    } else {
        None
    }
}

impl DatabaseType {
    /// The dialect named by the lower-cased tag `lower`; fails on an unknown tag.
    pub fn from_lowercase_tag(lower: &String) -> (r: Result<DatabaseType, CustomError>)
        ensures
            match r {
                Ok(d) => dialect_of_tag(lower@) == Some(d),
                Err(_) => dialect_of_tag(lower@) is None,
            },
    {
        if equals_literal(lower, "postgresql") {
            Ok(DatabaseType::PostgreSQL)
        } else if equals_literal(lower, "mysql") {
            Ok(DatabaseType::MySQL)
        } else if equals_literal(lower, "sqllite") {
            Ok(DatabaseType::SQLite)
        } else {
            Err(CustomError::from_str("unknown database type"))
        }
    }

    /// The dialect named by a configuration tag in any letter case.
    pub fn from_tag(tag: &str) -> (r: Result<DatabaseType, CustomError>)
        ensures
            match r {
                Ok(d) => dialect_of_tag(lowercase_of(tag@)) == Some(d),
                Err(_) => dialect_of_tag(lowercase_of(tag@)) is None,
            },
    {
        let lower = lowercase(tag);
        DatabaseType::from_lowercase_tag(&lower)
    }
}

/// The full name of table `name` under the configured prefix.
pub fn table_name(prefix: &str, name: &str) -> (r: String)
    ensures
        r@ == prefix@ + name@,
{
    let mut s = String::from_str(prefix);
    s.append(name);
    s
}

/// A UTC instant: whole seconds since the Unix epoch and the nanoseconds past them.
#[derive(Clone, Copy, Debug, PartialEq, Eq, Structural)]
pub struct Timestamp {
    pub secs: i64,
    pub nanos: u32,
}

/// What chrono renders for the UTC instant `(secs, nanos)` in RFC 3339, or
/// `None` where chrono cannot represent the instant.
pub uninterp spec fn rfc3339_of(instant: (i64, u32)) -> Option<Seq<char>>;

/// Relies on `chrono::DateTime::<Utc>::from_timestamp` (`None` outside
/// chrono's range) followed by `DateTime::to_rfc3339`.
#[verifier::external_body]
fn rfc3339(secs: i64, nanos: u32) -> (r: Option<String>)
    ensures
        match r {
            Some(s) => rfc3339_of((secs, nanos)) == Some(s@),
            None => rfc3339_of((secs, nanos)) is None,
        },
{
    match chrono::DateTime::<chrono::Utc>::from_timestamp(secs, nanos) {
        Some(dt) => Some(dt.to_rfc3339()),
        None => None,
    }
}

/// A value that may be bound to a statement or rendered into one.
#[derive(Debug, PartialEq, Eq)]
pub enum SafeValue {
    Null,
    Bool(bool),
    Integer(i64),
    /// Text with the level it is validated at.
    Text(String, ValidationLevel),
    DateTime(Timestamp),
}

impl Clone for SafeValue {
    fn clone(&self) -> (r: SafeValue)
        ensures
            r == *self,
    {
        match self {
            SafeValue::Null => SafeValue::Null,
            SafeValue::Bool(b) => SafeValue::Bool(*b),
            SafeValue::Integer(i) => SafeValue::Integer(*i),
            SafeValue::Text(s, l) => SafeValue::Text(s.clone(), *l),
            SafeValue::DateTime(t) => SafeValue::DateTime(*t),
        }
    }
}

/// The SQL type name a value is cast to.
pub open spec fn sql_type_of(v: SafeValue) -> Seq<char> {
    match v {
        SafeValue::Null => "NULL"@,
        SafeValue::Bool(_) => "BOOLEAN"@,
        SafeValue::Integer(_) => "INTEGER"@,
        SafeValue::Text(_, _) => "TEXT"@,
        SafeValue::DateTime(_) => "TEXT"@,
    }
}

/// The literal text of `v`, or `None` where rendering fails.
pub open spec fn literal_text(v: SafeValue) -> Option<Seq<char>> {
    match v {
        SafeValue::Null => Some("NULL"@),
        SafeValue::Bool(b) => Some(if b { "true"@ } else { "false"@ }),
        SafeValue::Integer(i) => Some(signed_decimal(i as int)),
        SafeValue::Text(t, level) => if text_failure(t@, level) is None && ddl_failure(t@) is None {
            Some(t@)
        } else {
            None
        },
        SafeValue::DateTime(ts) => rfc3339_of((ts.secs, ts.nanos)),
    }
}

/// Whether `r` is what rendering `v` as a literal gives: text is validated at
/// its own level first and then, since a literal is written into SQL text,
/// scanned for denylisted patterns and control characters whatever its level;
/// a timestamp must be representable.
pub open spec fn literal_result(v: SafeValue, r: Result<String, SqlError>) -> bool {
    match v {
        SafeValue::Null => r matches Ok(s) && s@ == "NULL"@,
        SafeValue::Bool(b) => r matches Ok(s) && s@ == (if b { "true"@ } else { "false"@ }),
        SafeValue::Integer(i) => r matches Ok(s) && s@ == signed_decimal(i as int),
        SafeValue::Text(t, level) => match text_failure(t@, level) {
            None => match ddl_failure(t@) {
                None => r matches Ok(s) && s@ == t@,
                Some(f) => r matches Err(SqlError::Validation(g, x, l)) && g == f && x@ == t@
                    && l == ValidationLevel::Relaxed,
            },
            Some(_) => r matches Err(e) && validation_result(t@, level, Err(e)),
        },
        SafeValue::DateTime(ts) => match rfc3339_of((ts.secs, ts.nanos)) {
            Some(x) => r matches Ok(s) && s@ == x,
            None => r == Err::<String, SqlError>(SqlError::InvalidTimestamp),
        },
    }
}

/// The placeholder for the `n`-th bound parameter (counted from 1).
pub open spec fn placeholder(d: DatabaseType, n: nat) -> Seq<char> {
    match d {
        DatabaseType::PostgreSQL => "$"@ + decimal(n),
        _ => "?"@,
    }
}

/// Renders the placeholder for the `n`-th bound parameter.
pub fn placeholder_string(d: DatabaseType, n: u128) -> (r: String)
    ensures
        r@ == placeholder(d, n as nat),
{
    match d {
        DatabaseType::PostgreSQL => {
            let mut s = String::from_str("$");
            let digits = decimal_string(n);
            s.append(digits.as_str());
            s
        },
        _ => String::from_str("?"),
    }
}

impl SafeValue {
    /// The SQL type name the value is cast to.
    pub fn sql_type(&self) -> (r: &'static str)
        ensures
            r@ == sql_type_of(*self),
    {
        match self {
            SafeValue::Null => "NULL",
            SafeValue::Bool(_) => "BOOLEAN",
            SafeValue::Integer(_) => "INTEGER",
            SafeValue::Text(_, _) => "TEXT",
            SafeValue::DateTime(_) => "TEXT",
        }
    }

    /// The value as a literal for SQL text; text must pass its own level, and
    /// then the denylist and control-character rules whatever its level.
    pub fn to_string(&self) -> (r: Result<String, SqlError>)
        ensures
            literal_result(*self, r),
            match r {
                Ok(s) => literal_text(*self) == Some(s@),
                Err(_) => literal_text(*self) is None,
            },
    {
        match self {
            SafeValue::Null => Ok(String::from_str("NULL")),
            SafeValue::Bool(b) => Ok(String::from_str(if *b { "true" } else { "false" })),
            SafeValue::Integer(i) => Ok(signed_decimal_string(*i)),
            SafeValue::Text(s, level) => {
                let v = TextValidator::new();
                match v.validate(s.as_str(), *level) {
                    Ok(()) => {},
                    Err(e) => {
                        return Err(e);
                    },
                }
                match v.check_ddl_text(s.as_str()) {
                    Ok(()) => Ok(s.clone()),
                    Err(e) => Err(e),
                }
            },
            SafeValue::DateTime(t) => match rfc3339(t.secs, t.nanos) {
                Some(s) => Ok(s),
                None => Err(SqlError::InvalidTimestamp),
            },
        }
    }
}

} // verus!
