//! A dialect-neutral schema model (tables, typed fields, constraints,
//! indexes) and its rendering to CREATE TABLE / CREATE INDEX statements.

use vstd::prelude::*;
use crate::error::SqlError;
use crate::identifier::{identifier_grammar, names_of, Identifier};
use crate::predicate::{operator_text, Condition, Operator, WhereClause};
use crate::text::{decimal, decimal_string, join, join_strings};
use crate::value::{literal_text, DatabaseType, SafeValue};

verus! {

/// The type of a column.
#[derive(Clone, Copy, Debug, PartialEq, Eq, Structural)]
pub enum FieldType {
    /// An integer; `true` asks for auto-increment when the column is the primary key.
    Integer(bool),
    BigInt,
    VarChar(usize),
    Text,
    Boolean,
    Timestamp,
}

/// What happens to referencing rows when the referenced row changes.
#[derive(Clone, Copy, Debug, PartialEq, Eq, Structural)]
pub enum ForeignKeyAction {
    Cascade,
    Restrict,
    SetNull,
    NoAction,
    SetDefault,
}

/// The SQL spelling of a foreign-key action.
pub open spec fn action_text(a: ForeignKeyAction) -> Seq<char> {
    match a {
        ForeignKeyAction::Cascade => "CASCADE"@,
        ForeignKeyAction::Restrict => "RESTRICT"@,
        ForeignKeyAction::SetNull => "SET NULL"@,
        ForeignKeyAction::NoAction => "NO ACTION"@,
        ForeignKeyAction::SetDefault => "SET DEFAULT"@,
    }
}

impl ForeignKeyAction {
    /// The SQL spelling.
    pub fn as_str(&self) -> (r: &'static str)
        ensures
            r@ == action_text(*self),
    {
        match self {
            ForeignKeyAction::Cascade => "CASCADE",
            ForeignKeyAction::Restrict => "RESTRICT",
            ForeignKeyAction::SetNull => "SET NULL",
            ForeignKeyAction::NoAction => "NO ACTION",
            ForeignKeyAction::SetDefault => "SET DEFAULT",
        }
    }
}

/// A reference from a column to a column of another (or the same) table.
#[derive(Clone, Debug)]
pub struct ForeignKey {
    pub ref_table: String,
    pub ref_column: String,
    pub on_delete: Option<ForeignKeyAction>,
    pub on_update: Option<ForeignKeyAction>,
}

/// The constraints on a column.
#[derive(Debug)]
pub struct FieldConstraint {
    pub is_primary: bool,
    pub is_unique: bool,
    pub is_nullable: bool,
    pub default_value: Option<SafeValue>,
    pub check_constraint: Option<WhereClause>,
    pub foreign_key: Option<ForeignKey>,
}

impl FieldConstraint {
    /// No constraint: nullable, not unique, not a key, no default, check or reference.
    pub fn new() -> (r: FieldConstraint)
        ensures
            !r.is_primary && !r.is_unique && r.is_nullable && r.default_value is None
                && r.check_constraint is None && r.foreign_key is None,
    {
        FieldConstraint {
            is_primary: false,
            is_unique: false,
            is_nullable: true,
            default_value: None,
            check_constraint: None,
            foreign_key: None,
        }
    }

    /// Marks the column part of the primary key, which also makes it NOT NULL.
    pub fn primary(self) -> (r: FieldConstraint)
        ensures
            r == (FieldConstraint { is_primary: true, is_nullable: false, ..self }),
    {
        FieldConstraint { is_primary: true, is_nullable: false, ..self }
    }

    /// Marks the column UNIQUE.
    pub fn unique(self) -> (r: FieldConstraint)
        ensures
            r == (FieldConstraint { is_unique: true, ..self }),
    {
        FieldConstraint { is_unique: true, ..self }
    }

    /// Marks the column NOT NULL.
    pub fn not_null(self) -> (r: FieldConstraint)
        ensures
            r == (FieldConstraint { is_nullable: false, ..self }),
    {
        FieldConstraint { is_nullable: false, ..self }
    }

    /// Gives the column a default value.
    pub fn default(self, value: SafeValue) -> (r: FieldConstraint)
        ensures
            r == (FieldConstraint { default_value: Some(value), ..self }),
    {
        FieldConstraint { default_value: Some(value), ..self }
    }

    /// Gives the column a CHECK constraint.
    pub fn check(self, clause: WhereClause) -> (r: FieldConstraint)
        ensures
            r == (FieldConstraint { check_constraint: Some(clause), ..self }),
    {
        FieldConstraint { check_constraint: Some(clause), ..self }
    }

    /// Makes the column reference `ref_table(ref_column)`, with no actions yet.
    pub fn foreign_key(self, ref_table: String, ref_column: String) -> (r: FieldConstraint)
        ensures
            r == (FieldConstraint {
                foreign_key: Some(ForeignKey { ref_table, ref_column, on_delete: None, on_update: None }),
                ..self
            }),
    {
        FieldConstraint {
            foreign_key: Some(ForeignKey { ref_table, ref_column, on_delete: None, on_update: None }),
            ..self
        }
    }

    /// Sets the ON DELETE action of the reference; without a reference, changes nothing.
    pub fn on_delete(self, action: ForeignKeyAction) -> (r: FieldConstraint)
        ensures
            r == (match self.foreign_key {
                Some(fk) => FieldConstraint {
                    foreign_key: Some(ForeignKey { on_delete: Some(action), ..fk }),
                    ..self
                },
                None => self,
            }),
    {
        match self.foreign_key {
            Some(fk) => FieldConstraint {
                foreign_key: Some(ForeignKey { on_delete: Some(action), ..fk }),
                ..self
            },
            None => self,
        }
    }

    /// Sets the ON UPDATE action of the reference; without a reference, changes nothing.
    pub fn on_update(self, action: ForeignKeyAction) -> (r: FieldConstraint)
        ensures
            r == (match self.foreign_key {
                Some(fk) => FieldConstraint {
                    foreign_key: Some(ForeignKey { on_update: Some(action), ..fk }),
                    ..self
                },
                None => self,
            }),
    {
        match self.foreign_key {
            Some(fk) => FieldConstraint {
                foreign_key: Some(ForeignKey { on_update: Some(action), ..fk }),
                ..self
            },
            None => self,
        }
    }
}

/// The CHECK text of a condition, or `None` where it cannot be written: a
/// value is rendered as a literal (text validated at its level), `IN` takes
/// its list as text, `LIKE` is not supported, and comparisons need a value.
pub open spec fn condition_check_text(c: Condition) -> Option<Seq<char>> {
    let head = c.spec_field() + " "@ + operator_text(c.spec_operator());
    match c.spec_operator() {
        Operator::IsNull | Operator::IsNotNull => Some(head),
        Operator::Like => None,
        Operator::In => match c.spec_value() {
            Some(SafeValue::Text(t, l)) => match literal_text(SafeValue::Text(t, l)) {
                Some(x) => Some(head + " "@ + x),
                None => None,
            },
            _ => None,
        },
        _ => match c.spec_value() {
            Some(v) => match literal_text(v) {
                Some(x) => Some(head + " "@ + x),
                None => None,
            },
            None => None,
        },
    }
}

/// The CHECK expression of a predicate tree: leaves bare, `Not` as
/// `NOT (...)`, children of `And` / `Or` joined inside one pair of parentheses.
/// `None` when some leaf cannot be written.
pub open spec fn check_text(w: WhereClause) -> Option<Seq<char>>
    decreases w,
{
    match w {
        WhereClause::Condition(c) => condition_check_text(c),
        WhereClause::Not(c) => match condition_check_text(c) {
            Some(t) => Some("NOT ("@ + t + ")"@),
            None => None,
        },
        WhereClause::And(cs) => match check_list_text(cs@) {
            Some(ts) => Some("("@ + join(ts, " AND "@) + ")"@),
            None => None,
        },
        WhereClause::Or(cs) => match check_list_text(cs@) {
            Some(ts) => Some("("@ + join(ts, " OR "@) + ")"@),
            None => None,
        },
    }
}

/// The CHECK expressions of a list of trees, or `None` when one fails.
pub open spec fn check_list_text(cs: Seq<WhereClause>) -> Option<Seq<Seq<char>>>
    decreases cs,
{
    if cs.len() == 0 {
        Some(Seq::empty())
    } else {
        match check_list_text(cs.drop_last()) {
            Some(a) => match check_text(cs.last()) {
                Some(t) => Some(a.push(t)),
                None => None,
            },
            None => None,
        }
    }
}

/// Renders one condition of a CHECK constraint.
pub fn condition_check(c: &Condition) -> (r: Result<String, SqlError>)
    ensures
        match r {
            Ok(s) => condition_check_text(*c) == Some(s@),
            Err(_) => condition_check_text(*c) is None,
        },
        c.spec_operator() == Operator::Like ==> (r matches Err(SqlError::UnsupportedCheckOperator(f))
            && f@ == c.spec_field()),
        c.spec_operator() == Operator::In && !(c.spec_value() matches Some(SafeValue::Text(_, _))) ==> (r matches Err(
            SqlError::InvalidInValue(f)) && f@ == c.spec_field()),
        needs_comparison_value(c.spec_operator()) && c.spec_value() is None ==> (r matches Err(
            SqlError::MissingValue(f)) && f@ == c.spec_field()),
{
    let mut head = String::from_str(c.field().as_str());
    head.append(" ");
    head.append(c.operator().as_str());
    match c.operator() {
        Operator::IsNull | Operator::IsNotNull => Ok(head),
        Operator::Like => Err(SqlError::UnsupportedCheckOperator(c.field().as_str().to_owned())),
        _ => {
            let v = match c.value() {
                Some(v) => v,
                None => {
                    if matches!(c.operator(), Operator::In) {
                        return Err(SqlError::InvalidInValue(c.field().as_str().to_owned()));
                    }
                    return Err(SqlError::MissingValue(c.field().as_str().to_owned()));
                },
            };
            if matches!(c.operator(), Operator::In) && !matches!(v, SafeValue::Text(_, _)) {
                return Err(SqlError::InvalidInValue(c.field().as_str().to_owned()));
            }
            let lit = match v.to_string() {
                Ok(s) => s,
                Err(e) => {
                    return Err(e);
                },
            };
            head.append(" ");
            head.append(lit.as_str());
            Ok(head)
        },
    }
}

/// The comparisons, which take a value inside a CHECK constraint.
pub open spec fn needs_comparison_value(op: Operator) -> bool {
    op == Operator::Eq || op == Operator::Ne || op == Operator::Gt || op == Operator::Lt
        || op == Operator::Gte || op == Operator::Lte
}

/// Lowers a predicate tree to a CHECK expression.
pub fn build_check_constraint(check: &WhereClause) -> (r: Result<String, SqlError>)
    ensures
        match r {
            Ok(s) => check_text(*check) == Some(s@),
            Err(_) => check_text(*check) is None,
        },
    decreases check,
{
    match check {
        WhereClause::Condition(c) => condition_check(c),
        WhereClause::Not(c) => {
            let t = match condition_check(c) {
                Ok(t) => t,
                Err(e) => {
                    return Err(e);
                },
            };
            let mut out = String::from_str("NOT (");
            out.append(t.as_str());
            out.append(")");
            Ok(out)
        },
        WhereClause::And(cs) => {
            let parts = match check_list(cs) {
                Ok(p) => p,
                Err(e) => {
                    return Err(e);
                },
            };
            let mut out = String::from_str("(");
            let joined = join_strings(&parts, " AND ");
            out.append(joined.as_str());
            out.append(")");
            Ok(out)
        },
        WhereClause::Or(cs) => {
            let parts = match check_list(cs) {
                Ok(p) => p,
                Err(e) => {
                    return Err(e);
                },
            };
            let mut out = String::from_str("(");
            let joined = join_strings(&parts, " OR ");
            out.append(joined.as_str());
            out.append(")");
            Ok(out)
        },
    }
}

fn check_list(cs: &Vec<WhereClause>) -> (r: Result<Vec<String>, SqlError>)
    ensures
        match r {
            Ok(v) => check_list_text(cs@) == Some(v@.map_values(|s: String| s@)),
            Err(_) => check_list_text(cs@) is None,
        },
    decreases cs,
{
    let mut parts: Vec<String> = Vec::new();
    let mut i: usize = 0;
    while i < cs.len()
        invariant
            i <= cs@.len(),
            check_list_text(cs@.take(i as int)) == Some(parts@.map_values(|s: String| s@)),
        decreases cs@.len() - i,
    {
        proof {
            assert(cs@.take(i + 1).drop_last() =~= cs@.take(i as int));
            assert(cs@.take(i + 1).last() == cs@[i as int]);
        }
        let t = match build_check_constraint(&cs[i]) {
            Ok(t) => t,
            Err(e) => {
                proof {
                    lemma_check_list_prefix_fails(cs@, i as int + 1);
                }
                return Err(e);
            },
        };
        parts.push(t);
        assert(parts@.map_values(|s: String| s@) =~= check_list_text(cs@.take(i as int)).unwrap().push(t@));
        i += 1;
    }
    assert(cs@.take(cs@.len() as int) =~= cs@);
    Ok(parts)
}

proof fn lemma_check_list_prefix_fails(cs: Seq<WhereClause>, n: int)
    requires
        0 <= n <= cs.len(),
        check_list_text(cs.take(n)) is None,
    ensures
        check_list_text(cs) is None,
    decreases cs.len() - n,
{
    if n < cs.len() {
        assert(cs.take(n + 1).drop_last() =~= cs.take(n));
        lemma_check_list_prefix_fails(cs, n + 1);
    } else {
        assert(cs.take(n) =~= cs);
    }
}

/// The SQL type of a column. An auto-increment integer that is the primary
/// key carries the dialect's auto-increment in its type on MySQL and
/// PostgreSQL; booleans are integers on SQLite, timestamps text.
pub open spec fn field_type_text(ft: FieldType, primary: bool, d: DatabaseType) -> Seq<char> {
    match ft {
        FieldType::Integer(auto) => if auto && primary {
            match d {
                DatabaseType::MySQL => "INT AUTO_INCREMENT"@,
                DatabaseType::PostgreSQL => "INTEGER GENERATED ALWAYS AS IDENTITY"@,
                DatabaseType::SQLite => "INTEGER"@,
            }
        } else {
            match d {
                DatabaseType::MySQL => "INT"@,
                _ => "INTEGER"@,
            }
        },
        FieldType::BigInt => "BIGINT"@,
        FieldType::VarChar(n) => "VARCHAR("@ + decimal(n as nat) + ")"@,
        FieldType::Text => "TEXT"@,
        FieldType::Boolean => match d {
            DatabaseType::SQLite => "INTEGER"@,
            _ => "BOOLEAN"@,
        },
        FieldType::Timestamp => match d {
            DatabaseType::PostgreSQL => "TIMESTAMP WITH TIME ZONE"@,
            DatabaseType::MySQL => "TIMESTAMP"@,
            DatabaseType::SQLite => "TEXT"@,
        },
    }
}

/// The inline primary-key clause: SQLite's auto-increment rides on it.
pub open spec fn primary_text(ft: FieldType, d: DatabaseType) -> Seq<char> {
    if d == DatabaseType::SQLite && ft == FieldType::Integer(true) {
        " PRIMARY KEY AUTOINCREMENT"@
    } else {
        " PRIMARY KEY"@
    }
}

/// ` ON DELETE x` / ` ON UPDATE x` when an action is set.
pub open spec fn opt_action_text(prefix: Seq<char>, a: Option<ForeignKeyAction>) -> Seq<char> {
    match a {
        Some(x) => prefix + action_text(x),
        None => Seq::empty(),
    }
}

/// The ` REFERENCES t(c) ...` clause, or `None` when a name is outside the
/// identifier grammar.
pub open spec fn reference_text(k: ForeignKey) -> Option<Seq<char>> {
    if identifier_grammar(k.ref_table@) && identifier_grammar(k.ref_column@) {
        Some(" REFERENCES "@ + k.ref_table@ + "("@ + k.ref_column@ + ")"@ + opt_action_text(
            " ON DELETE "@,
            k.on_delete,
        ) + opt_action_text(" ON UPDATE "@, k.on_update))
    } else {
        None
    }
}

/// The ` DEFAULT x` clause (empty without a default), `None` when the
/// default cannot be rendered.
pub open spec fn default_part(c: FieldConstraint) -> Option<Seq<char>> {
    match c.default_value {
        None => Some(Seq::<char>::empty()),
        Some(v) => match literal_text(v) {
            Some(x) => Some(" DEFAULT "@ + x),
            None => None,
        },
    }
}

/// The ` CHECK (x)` clause (empty without a check), `None` when the check
/// cannot be written.
pub open spec fn check_part(c: FieldConstraint) -> Option<Seq<char>> {
    match c.check_constraint {
        None => Some(Seq::<char>::empty()),
        Some(w) => match check_text(w) {
            Some(x) => Some(" CHECK ("@ + x + ")"@),
            None => None,
        },
    }
}

/// The reference clause (empty without a reference), `None` on a bad name.
pub open spec fn reference_part(c: FieldConstraint) -> Option<Seq<char>> {
    match c.foreign_key {
        None => Some(Seq::<char>::empty()),
        Some(k) => reference_text(k),
    }
}

/// The name, type, NOT NULL, UNIQUE and inline primary-key clauses of a column.
pub open spec fn base_text(f: Field, d: DatabaseType, inline_pk: bool) -> Seq<char> {
    let c = f.constraints;
    f.name@ + " "@ + field_type_text(f.field_type, c.is_primary, d) + (if !c.is_nullable {
        " NOT NULL"@
    } else {
        Seq::empty()
    }) + (if c.is_unique {
        " UNIQUE"@
    } else {
        Seq::empty()
    }) + (if c.is_primary && inline_pk {
        primary_text(f.field_type, d)
    } else {
        Seq::empty()
    })
}

/// A column definition; the primary-key clause stands inline only when
/// `inline_pk` (a composite key is declared once for the table instead).
pub open spec fn field_text(f: Field, d: DatabaseType, inline_pk: bool) -> Option<Seq<char>> {
    let c = f.constraints;
    let base = base_text(f, d, inline_pk);
    let def = default_part(c);
    let chk = check_part(c);
    let fk = reference_part(c);
    if def is Some && chk is Some && fk is Some {
        Some(base + def.unwrap() + chk.unwrap() + fk.unwrap())
    } else {
        None
    }
}

/// A column: name, type and constraints.
#[derive(Debug)]
pub struct Field {
    pub name: Identifier,
    pub field_type: FieldType,
    pub constraints: FieldConstraint,
}

fn append_action(out: &mut String, prefix: &str, a: Option<ForeignKeyAction>)
    ensures
        final(out)@ == old(out)@ + opt_action_text(prefix@, a),
{
    match a {
        Some(x) => {
            out.append(prefix);
            out.append(x.as_str());
        },
        None => {
            assert(out@ =~= old(out)@ + Seq::<char>::empty());
        },
    }
}

impl Field {
    /// A column named `name`; fails on a name outside the identifier grammar.
    pub fn new(name: &str, field_type: FieldType, constraints: FieldConstraint) -> (r: Result<Field, SqlError>)
        ensures
            match r {
                Ok(f) => identifier_grammar(name@) && f.name@ == name@ && f.field_type == field_type
                    && f.constraints == constraints,
                Err(e) => !identifier_grammar(name@) && (e matches SqlError::InvalidIdentifier(n)
                    && n@ == name@),
            },
    {
        let id = match Identifier::new(name.to_owned()) {
            Ok(id) => id,
            Err(e) => {
                return Err(e);
            },
        };
        Ok(Field { name: id, field_type, constraints })
    }

    /// The column's SQL type in dialect `d`.
    pub fn field_type_sql(&self, d: DatabaseType) -> (r: String)
        ensures
            r@ == field_type_text(self.field_type, self.constraints.is_primary, d),
    {
        match self.field_type {
            FieldType::Integer(auto) => {
                if auto && self.constraints.is_primary {
                    match d {
                        DatabaseType::MySQL => String::from_str("INT AUTO_INCREMENT"),
                        DatabaseType::PostgreSQL => String::from_str("INTEGER GENERATED ALWAYS AS IDENTITY"),
                        DatabaseType::SQLite => String::from_str("INTEGER"),
                    }
                } else {
                    match d {
                        DatabaseType::MySQL => String::from_str("INT"),
                        _ => String::from_str("INTEGER"),
                    }
                }
            },
            FieldType::BigInt => String::from_str("BIGINT"),
            FieldType::VarChar(n) => {
                let mut s = String::from_str("VARCHAR(");
                let digits = decimal_string(n as u128);
                s.append(digits.as_str());
                s.append(")");
                s
            },
            FieldType::Text => String::from_str("TEXT"),
            FieldType::Boolean => match d {
                DatabaseType::SQLite => String::from_str("INTEGER"),
                _ => String::from_str("BOOLEAN"),
            },
            FieldType::Timestamp => match d {
                DatabaseType::PostgreSQL => String::from_str("TIMESTAMP WITH TIME ZONE"),
                DatabaseType::MySQL => String::from_str("TIMESTAMP"),
                DatabaseType::SQLite => String::from_str("TEXT"),
            },
        }
    }

    fn render_base(&self, d: DatabaseType, inline_pk: bool) -> (r: String)
        ensures
            r@ == base_text(*self, d, inline_pk),
    {
        let c = &self.constraints;
        let mut sql = String::from_str(self.name.as_str());
        sql.append(" ");
        let ty = self.field_type_sql(d);
        sql.append(ty.as_str());
        let ghost s0 = sql@;
        if !c.is_nullable {
            sql.append(" NOT NULL");
        }
        let ghost s1 = sql@;
        if c.is_unique {
            sql.append(" UNIQUE");
        }
        let ghost s2 = sql@;
        if c.is_primary && inline_pk {
            if matches!(d, DatabaseType::SQLite) && matches!(self.field_type, FieldType::Integer(true)) {
                sql.append(" PRIMARY KEY AUTOINCREMENT");
            } else {
                sql.append(" PRIMARY KEY");
            }
        }
        proof {
            let nn = if !c.is_nullable { " NOT NULL"@ } else { Seq::<char>::empty() };
            let un = if c.is_unique { " UNIQUE"@ } else { Seq::<char>::empty() };
            let pk = if c.is_primary && inline_pk { primary_text(self.field_type, d) } else { Seq::<char>::empty() };
            assert(s1 =~= s0 + nn);
            assert(s2 =~= s0 + nn + un);
            assert(sql@ =~= s0 + nn + un + pk);
        }
        sql
    }

    fn render_default(&self) -> (r: Result<String, SqlError>)
        ensures
            match r {
                Ok(s) => default_part(self.constraints) == Some(s@),
                Err(_) => default_part(self.constraints) is None,
            },
    {
        match &self.constraints.default_value {
            Some(v) => {
                let lit = match v.to_string() {
                    Ok(l) => l,
                    Err(e) => {
                        return Err(e);
                    },
                };
                let mut s = String::from_str(" DEFAULT ");
                s.append(lit.as_str());
                Ok(s)
            },
            None => Ok(String::new()),
        }
    }

    fn render_check(&self) -> (r: Result<String, SqlError>)
        ensures
            match r {
                Ok(s) => check_part(self.constraints) == Some(s@),
                Err(_) => check_part(self.constraints) is None,
            },
    {
        match &self.constraints.check_constraint {
            Some(w) => {
                let chk = match build_check_constraint(w) {
                    Ok(t) => t,
                    Err(e) => {
                        return Err(e);
                    },
                };
                let mut s = String::from_str(" CHECK (");
                s.append(chk.as_str());
                s.append(")");
                Ok(s)
            },
            None => Ok(String::new()),
        }
    }

    fn render_reference(&self) -> (r: Result<String, SqlError>)
        ensures
            match r {
                Ok(s) => reference_part(self.constraints) == Some(s@),
                Err(_) => reference_part(self.constraints) is None,
            },
    {
        match &self.constraints.foreign_key {
            Some(fk) => {
                let t = Identifier::new(fk.ref_table.clone());
                if t.is_err() {
                    return Err(SqlError::InvalidIdentifier(fk.ref_table.clone()));
                }
                let col = Identifier::new(fk.ref_column.clone());
                if col.is_err() {
                    return Err(SqlError::InvalidIdentifier(fk.ref_column.clone()));
                }
                let mut sql = String::from_str(" REFERENCES ");
                sql.append(fk.ref_table.as_str());
                sql.append("(");
                sql.append(fk.ref_column.as_str());
                sql.append(")");
                append_action(&mut sql, " ON DELETE ", fk.on_delete);
                append_action(&mut sql, " ON UPDATE ", fk.on_update);
                Ok(sql)
            },
            None => Ok(String::new()),
        }
    }

    fn render(&self, d: DatabaseType, inline_pk: bool) -> (r: Result<String, SqlError>)
        ensures
            match r {
                Ok(s) => field_text(*self, d, inline_pk) == Some(s@),
                Err(_) => field_text(*self, d, inline_pk) is None,
            },
    {
        let mut sql = self.render_base(d, inline_pk);
        let def = match self.render_default() {
            Ok(s) => s,
            Err(e) => {
                return Err(e);
            },
        };
        let chk = match self.render_check() {
            Ok(s) => s,
            Err(e) => {
                return Err(e);
            },
        };
        let fk = match self.render_reference() {
            Ok(s) => s,
            Err(e) => {
                return Err(e);
            },
        };
        sql.append(def.as_str());
        sql.append(chk.as_str());
        sql.append(fk.as_str());
        Ok(sql)
    }

    /// The column definition in dialect `d`, with its primary-key clause inline.
    pub fn to_sql(&self, d: DatabaseType) -> (r: Result<String, SqlError>)
        ensures
            match r {
                Ok(s) => field_text(*self, d, true) == Some(s@),
                Err(_) => field_text(*self, d, true) is None,
            },
    {
        self.render(d, true)
    }
}

/// An index over columns of a table.
#[derive(Debug)]
pub struct Index {
    pub name: Identifier,
    pub fields: Vec<Identifier>,
    pub is_unique: bool,
}

/// `CREATE [UNIQUE ]INDEX name ON table (f1, f2);`
pub open spec fn index_text(ix: Index, table: Seq<char>) -> Seq<char> {
    "CREATE "@ + (if ix.is_unique { "UNIQUE "@ } else { Seq::empty() }) + "INDEX "@ + ix.name@ + " ON "@
        + table + " ("@ + join(ix.fields@.map_values(|f: Identifier| f@), ", "@) + ");"@
}

/// Whether every name of `names` matches the identifier grammar.
pub open spec fn all_identifiers(names: Seq<String>) -> bool {
    forall|i: int| 0 <= i < names.len() ==> identifier_grammar(#[trigger] names[i]@)
}

impl Index {
    /// An index named `name` over `fields` in order; fails on the first name
    /// outside the identifier grammar, the index name first.
    pub fn new(name: &str, fields: Vec<String>, is_unique: bool) -> (r: Result<Index, SqlError>)
        ensures
            r is Ok <==> identifier_grammar(name@) && all_identifiers(fields@),
            r matches Ok(ix) ==> ix.name@ == name@ && ix.is_unique == is_unique
                && ix.fields@.map_values(|f: Identifier| f@) == fields@.map_values(|s: String| s@),
            r matches Err(e) ==> (e matches SqlError::InvalidIdentifier(n) && (n@ == name@ || exists|i: int|
                0 <= i < fields@.len() && n@ == #[trigger] fields@[i]@)),
    {
        let id = match Identifier::new(name.to_owned()) {
            Ok(id) => id,
            Err(e) => {
                return Err(e);
            },
        };
        let mut ids: Vec<Identifier> = Vec::new();
        let mut i: usize = 0;
        while i < fields.len()
            invariant
                i <= fields@.len(),
                all_identifiers(fields@.take(i as int)),
                ids@.map_values(|f: Identifier| f@) == fields@.take(i as int).map_values(|s: String| s@),
            decreases fields@.len() - i,
        {
            let f = match Identifier::new(fields[i].clone()) {
                Ok(f) => f,
                Err(e) => {
                    assert(!identifier_grammar(fields@[i as int]@));
                    return Err(e);
                },
            };
            ids.push(f);
            assert(fields@.take(i + 1).map_values(|s: String| s@) =~= fields@.take(i as int).map_values(
                |s: String| s@,
            ).push(fields@[i as int]@));
            assert(ids@.map_values(|f: Identifier| f@) =~= fields@.take(i + 1).map_values(|s: String| s@));
            assert(forall|k: int| 0 <= k < i + 1 ==> #[trigger] fields@.take(i + 1)[k] == fields@[k]);
            i += 1;
        }
        assert(fields@.take(fields@.len() as int) =~= fields@);
        Ok(Index { name: id, fields: ids, is_unique })
    }

    /// The CREATE INDEX statement on `table_name`; the same in every dialect.
    pub fn to_sql(&self, table_name: &str, _d: DatabaseType) -> (r: String)
        ensures
            r@ == index_text(*self, table_name@),
    {
        let mut s = String::from_str("CREATE ");
        if self.is_unique {
            s.append("UNIQUE ");
        }
        let ghost s0 = s@;
        s.append("INDEX ");
        s.append(self.name.as_str());
        s.append(" ON ");
        s.append(table_name);
        s.append(" (");
        let names = names_of(&self.fields);
        let joined = join_strings(&names, ", ");
        s.append(joined.as_str());
        s.append(");");
        proof {
            let u = if self.is_unique { "UNIQUE "@ } else { Seq::<char>::empty() };
            assert(s0 =~= "CREATE "@ + u);
            assert(s@ =~= index_text(*self, table_name@));
        }
        s
    }
}

/// The names of the primary-key columns, in column order.
pub open spec fn primary_names(fs: Seq<Field>) -> Seq<Seq<char>>
    decreases fs.len(),
{
    if fs.len() == 0 {
        Seq::empty()
    } else {
        let a = primary_names(fs.drop_last());
        if fs.last().constraints.is_primary {
            a.push(fs.last().name@)
        } else {
            a
        }
    }
}

/// The column definitions of `fs`, or `None` when one fails.
pub open spec fn fields_text(fs: Seq<Field>, d: DatabaseType, inline_pk: bool) -> Option<Seq<Seq<char>>>
    decreases fs.len(),
{
    if fs.len() == 0 {
        Some(Seq::empty())
    } else {
        match fields_text(fs.drop_last(), d, inline_pk) {
            Some(a) => match field_text(fs.last(), d, inline_pk) {
                Some(t) => Some(a.push(t)),
                None => None,
            },
            None => None,
        }
    }
}

/// Each index statement preceded by a blank line.
pub open spec fn indexes_text(ixs: Seq<Index>, table: Seq<char>) -> Seq<char>
    decreases ixs.len(),
{
    if ixs.len() == 0 {
        Seq::empty()
    } else {
        indexes_text(ixs.drop_last(), table) + "\n\n"@ + index_text(ixs.last(), table)
    }
}

/// The CREATE TABLE statement of a table with column definitions `cols`
/// and primary-key columns `pks`: with one key or none it stands inline in
/// its column; a composite key is declared after the columns, as a named
/// constraint on SQLite.
pub open spec fn create_text(name: Seq<char>, cols: Seq<Seq<char>>, pks: Seq<Seq<char>>, d: DatabaseType) -> Seq<char> {
    let body = "CREATE TABLE "@ + name + " (\n    "@ + join(cols, ",\n    "@);
    if pks.len() > 1 {
        if d == DatabaseType::SQLite {
            body + ",\n    CONSTRAINT pk_"@ + name + " PRIMARY KEY ("@ + join(pks, ", "@) + "))"@
        } else {
            body + ",\n    PRIMARY KEY ("@ + join(pks, ", "@) + "))"@
        }
    } else {
        body + "\n)"@
    }
}

/// The DDL of a table: its CREATE TABLE statement, `;`, then its indexes.
pub open spec fn table_text(t: Table, d: DatabaseType) -> Option<Seq<char>> {
    let pks = primary_names(t.fields@);
    match fields_text(t.fields@, d, pks.len() <= 1) {
        Some(cols) => Some(create_text(t.name@, cols, pks, d) + ";"@ + indexes_text(t.indexes@, t.name@)),
        None => None,
    }
}

/// A reference as written in DDL: table, column and the two actions.
pub struct ReferenceModel {
    pub table: Seq<char>,
    pub column: Seq<char>,
    pub on_delete: Option<ForeignKeyAction>,
    pub on_update: Option<ForeignKeyAction>,
}

/// A column as far as its DDL depends on it. `default` and `check` are
/// `None` when absent, else the rendered text (itself `None` when it cannot
/// be rendered).
pub struct ColumnModel {
    pub name: Seq<char>,
    pub field_type: FieldType,
    pub primary: bool,
    pub unique: bool,
    pub nullable: bool,
    pub default: Option<Option<Seq<char>>>,
    pub check: Option<Option<Seq<char>>>,
    pub reference: Option<ReferenceModel>,
}

/// An index: name, columns in order, uniqueness.
pub struct IndexModel {
    pub name: Seq<char>,
    pub columns: Seq<Seq<char>>,
    pub unique: bool,
}

/// A table: name, columns in order, indexes in order.
pub struct TableModel {
    pub name: Seq<char>,
    pub columns: Seq<ColumnModel>,
    pub indexes: Seq<IndexModel>,
}

/// The model of a column.
pub open spec fn column_model(f: Field) -> ColumnModel {
    let c = f.constraints;
    ColumnModel {
        name: f.name@,
        field_type: f.field_type,
        primary: c.is_primary,
        unique: c.is_unique,
        nullable: c.is_nullable,
        default: match c.default_value {
            Some(v) => Some(literal_text(v)),
            None => None,
        },
        check: match c.check_constraint {
            Some(w) => Some(check_text(w)),
            None => None,
        },
        reference: match c.foreign_key {
            Some(k) => Some(ReferenceModel {
                table: k.ref_table@,
                column: k.ref_column@,
                on_delete: k.on_delete,
                on_update: k.on_update,
            }),
            None => None,
        },
    }
}

/// The model of an index.
pub open spec fn index_model(ix: Index) -> IndexModel {
    IndexModel { name: ix.name@, columns: ix.fields@.map_values(|f: Identifier| f@), unique: ix.is_unique }
}

/// The model of a table.
pub open spec fn table_model(t: Table) -> TableModel {
    TableModel {
        name: t.name@,
        columns: t.fields@.map_values(|f: Field| column_model(f)),
        indexes: t.indexes@.map_values(|ix: Index| index_model(ix)),
    }
}

proof fn lemma_field_text_by_model(f1: Field, f2: Field, d: DatabaseType, inline_pk: bool)
    requires
        column_model(f1) == column_model(f2),
    ensures
        field_text(f1, d, inline_pk) == field_text(f2, d, inline_pk),
{
    assert(default_part(f1.constraints) == default_part(f2.constraints));
    assert(check_part(f1.constraints) == check_part(f2.constraints));
    assert(reference_part(f1.constraints) == reference_part(f2.constraints));
}

proof fn lemma_columns_by_model(fs1: Seq<Field>, fs2: Seq<Field>, d: DatabaseType, inline_pk: bool)
    requires
        fs1.map_values(|f: Field| column_model(f)) == fs2.map_values(|f: Field| column_model(f)),
    ensures
        fields_text(fs1, d, inline_pk) == fields_text(fs2, d, inline_pk),
        primary_names(fs1) == primary_names(fs2),
    decreases fs1.len(),
{
    assert(fs1.len() == fs1.map_values(|f: Field| column_model(f)).len());
    if fs1.len() > 0 {
        let n = fs1.len() - 1;
        assert(fs1.drop_last().map_values(|f: Field| column_model(f)) =~= fs1.map_values(|f: Field| column_model(f)).drop_last());
        assert(fs2.drop_last().map_values(|f: Field| column_model(f)) =~= fs2.map_values(|f: Field| column_model(f)).drop_last());
        lemma_columns_by_model(fs1.drop_last(), fs2.drop_last(), d, inline_pk);
        assert(column_model(fs1[n]) == fs1.map_values(|f: Field| column_model(f))[n]);
        assert(column_model(fs2[n]) == fs2.map_values(|f: Field| column_model(f))[n]);
        lemma_field_text_by_model(fs1.last(), fs2.last(), d, inline_pk);
    }
}

proof fn lemma_indexes_by_model(ixs1: Seq<Index>, ixs2: Seq<Index>, table: Seq<char>)
    requires
        ixs1.map_values(|ix: Index| index_model(ix)) == ixs2.map_values(|ix: Index| index_model(ix)),
    ensures
        indexes_text(ixs1, table) == indexes_text(ixs2, table),
    decreases ixs1.len(),
{
    assert(ixs1.len() == ixs1.map_values(|ix: Index| index_model(ix)).len());
    if ixs1.len() > 0 {
        let n = ixs1.len() - 1;
        assert(ixs1.drop_last().map_values(|ix: Index| index_model(ix)) =~= ixs1.map_values(|ix: Index| index_model(ix)).drop_last());
        assert(ixs2.drop_last().map_values(|ix: Index| index_model(ix)) =~= ixs2.map_values(|ix: Index| index_model(ix)).drop_last());
        lemma_indexes_by_model(ixs1.drop_last(), ixs2.drop_last(), table);
        assert(index_model(ixs1[n]) == ixs1.map_values(|ix: Index| index_model(ix))[n]);
        assert(index_model(ixs2[n]) == ixs2.map_values(|ix: Index| index_model(ix))[n]);
        assert(index_text(ixs1.last(), table) == index_text(ixs2.last(), table));
    }
}

/// The DDL of tables depends on their models alone: tables with the same
/// models render to the same text in every dialect.
pub proof fn lemma_schema_text_by_model(ts1: Seq<Table>, ts2: Seq<Table>, d: DatabaseType)
    requires
        ts1.len() == ts2.len(),
        forall|k: int| 0 <= k < ts1.len() ==> #[trigger] table_model(ts1[k]) == table_model(ts2[k]),
    ensures
        schema_text(ts1, d) == schema_text(ts2, d),
    decreases ts1.len(),
{
    if ts1.len() > 0 {
        let n = ts1.len() - 1;
        assert(forall|k: int| 0 <= k < n ==> #[trigger] ts1.drop_last()[k] == ts1[k]);
        assert(forall|k: int| 0 <= k < n ==> #[trigger] ts2.drop_last()[k] == ts2[k]);
        assert forall|k: int| 0 <= k < n implies #[trigger] table_model(ts1.drop_last()[k]) == table_model(ts2.drop_last()[k]) by {
            assert(table_model(ts1[k]) == table_model(ts2[k]));
        }
        lemma_schema_text_by_model(ts1.drop_last(), ts2.drop_last(), d);
        let t1 = ts1[n];
        let t2 = ts2[n];
        assert(table_model(t1) == table_model(t2));
        lemma_columns_by_model(t1.fields@, t2.fields@, d, primary_names(t1.fields@).len() <= 1);
        lemma_columns_by_model(t1.fields@, t2.fields@, d, primary_names(t2.fields@).len() <= 1);
        lemma_indexes_by_model(t1.indexes@, t2.indexes@, t1.name@);
        assert(table_text(t1, d) == table_text(t2, d));
    }
}

/// Whether a column can be written in every dialect: its default, CHECK and
/// reference clauses all render.
pub open spec fn field_renders(f: Field) -> bool {
    &&& default_part(f.constraints) is Some
    &&& check_part(f.constraints) is Some
    &&& reference_part(f.constraints) is Some
}

/// Whether every column of a table can be written.
pub open spec fn table_renders(t: Table) -> bool {
    forall|i: int| 0 <= i < t.fields@.len() ==> field_renders(#[trigger] t.fields@[i])
}

proof fn lemma_fields_text_some(fs: Seq<Field>, d: DatabaseType, inline_pk: bool)
    requires
        forall|i: int| 0 <= i < fs.len() ==> field_renders(#[trigger] fs[i]),
    ensures
        fields_text(fs, d, inline_pk) is Some,
    decreases fs.len(),
{
    if fs.len() > 0 {
        assert(forall|i: int| 0 <= i < fs.len() - 1 ==> #[trigger] fs.drop_last()[i] == fs[i]);
        lemma_fields_text_some(fs.drop_last(), d, inline_pk);
        assert(field_renders(fs[fs.len() - 1]));
    }
}

/// A table: its name, columns in order and indexes.
#[derive(Debug)]
pub struct Table {
    pub name: Identifier,
    pub fields: Vec<Field>,
    pub indexes: Vec<Index>,
}

proof fn lemma_fields_prefix_fails(fs: Seq<Field>, d: DatabaseType, inline_pk: bool, n: int)
    requires
        0 <= n <= fs.len(),
        fields_text(fs.take(n), d, inline_pk) is None,
    ensures
        fields_text(fs, d, inline_pk) is None,
    decreases fs.len() - n,
{
    if n < fs.len() {
        assert(fs.take(n + 1).drop_last() =~= fs.take(n));
        lemma_fields_prefix_fails(fs, d, inline_pk, n + 1);
    } else {
        assert(fs.take(n) =~= fs);
    }
}

impl Table {
    /// An empty table named `name`; fails on a name outside the identifier grammar.
    pub fn new(name: &str) -> (r: Result<Table, SqlError>)
        ensures
            match r {
                Ok(t) => identifier_grammar(name@) && t.name@ == name@ && t.fields@.len() == 0
                    && t.indexes@.len() == 0,
                Err(e) => !identifier_grammar(name@) && (e matches SqlError::InvalidIdentifier(n)
                    && n@ == name@),
            },
    {
        let id = match Identifier::new(name.to_owned()) {
            Ok(id) => id,
            Err(e) => {
                return Err(e);
            },
        };
        Ok(Table { name: id, fields: Vec::new(), indexes: Vec::new() })
    }

    /// Appends a column.
    pub fn add_field(&mut self, field: Field)
        ensures
            final(self).name == old(self).name,
            final(self).fields@ == old(self).fields@.push(field),
            final(self).indexes@ == old(self).indexes@,
            table_renders(*old(self)) && field_renders(field) ==> table_renders(*final(self)),
    {
        self.fields.push(field);
        assert(forall|i: int| 0 <= i < old(self).fields@.len() ==> #[trigger] self.fields@[i] == old(self).fields@[i]);
    }

    /// Appends an index.
    pub fn add_index(&mut self, index: Index)
        ensures
            final(self).name == old(self).name,
            final(self).fields@ == old(self).fields@,
            final(self).indexes@ == old(self).indexes@.push(index),
    {
        self.indexes.push(index);
    }

    /// The names of the columns marked primary, in column order.
    pub fn primary_keys(&self) -> (r: Vec<String>)
        ensures
            r@.map_values(|s: String| s@) == primary_names(self.fields@),
    {
        let mut r: Vec<String> = Vec::new();
        let mut i: usize = 0;
        while i < self.fields.len()
            invariant
                i <= self.fields@.len(),
                r@.map_values(|s: String| s@) == primary_names(self.fields@.take(i as int)),
            decreases self.fields@.len() - i,
        {
            assert(self.fields@.take(i + 1).drop_last() =~= self.fields@.take(i as int));
            if self.fields[i].constraints.is_primary {
                r.push(self.fields[i].name.as_str().to_owned());
            }
            assert(r@.map_values(|s: String| s@) =~= primary_names(self.fields@.take(i + 1)));
            i += 1;
        }
        assert(self.fields@.take(self.fields@.len() as int) =~= self.fields@);
        r
    }

    fn render_fields(&self, d: DatabaseType, inline_pk: bool) -> (r: Result<Vec<String>, SqlError>)
        ensures
            match r {
                Ok(v) => fields_text(self.fields@, d, inline_pk) == Some(v@.map_values(|s: String| s@)),
                Err(_) => fields_text(self.fields@, d, inline_pk) is None,
            },
    {
        let mut parts: Vec<String> = Vec::new();
        let mut i: usize = 0;
        while i < self.fields.len()
            invariant
                i <= self.fields@.len(),
                fields_text(self.fields@.take(i as int), d, inline_pk) == Some(parts@.map_values(|s: String| s@)),
            decreases self.fields@.len() - i,
        {
            proof {
                assert(self.fields@.take(i + 1).drop_last() =~= self.fields@.take(i as int));
                assert(self.fields@.take(i + 1).last() == self.fields@[i as int]);
            }
            let t = match self.fields[i].render(d, inline_pk) {
                Ok(t) => t,
                Err(e) => {
                    proof {
                        lemma_fields_prefix_fails(self.fields@, d, inline_pk, i as int + 1);
                    }
                    return Err(e);
                },
            };
            parts.push(t);
            assert(parts@.map_values(|s: String| s@) =~= fields_text(self.fields@.take(i as int), d, inline_pk).unwrap().push(t@));
            i += 1;
        }
        assert(self.fields@.take(self.fields@.len() as int) =~= self.fields@);
        Ok(parts)
    }

    fn create_statement(&self, cols: &Vec<String>, pks: &Vec<String>, d: DatabaseType) -> (r: String)
        ensures
            r@ == create_text(self.name@, cols@.map_values(|s: String| s@), pks@.map_values(|s: String| s@), d),
    {
        let mut sql = String::from_str("CREATE TABLE ");
        sql.append(self.name.as_str());
        sql.append(" (\n    ");
        let body = join_strings(cols, ",\n    ");
        sql.append(body.as_str());
        if pks.len() > 1 {
            let keys = join_strings(pks, ", ");
            if matches!(d, DatabaseType::SQLite) {
                sql.append(",\n    CONSTRAINT pk_");
                sql.append(self.name.as_str());
                sql.append(" PRIMARY KEY (");
            } else {
                sql.append(",\n    PRIMARY KEY (");
            }
            sql.append(keys.as_str());
            sql.append("))");
        } else {
            sql.append("\n)");
        }
        sql
    }

    /// The table's DDL in dialect `d`: CREATE TABLE, `;`, then each index
    /// statement after a blank line. Fails when a column cannot be rendered.
    pub fn to_sql(&self, d: DatabaseType) -> (r: Result<String, SqlError>)
        ensures
            match r {
                Ok(s) => table_text(*self, d) == Some(s@),
                Err(_) => table_text(*self, d) is None,
            },
    {
        let pks = self.primary_keys();
        let cols = match self.render_fields(d, pks.len() <= 1) {
            Ok(c) => c,
            Err(e) => {
                return Err(e);
            },
        };
        let mut sql = self.create_statement(&cols, &pks, d);
        sql.append(";");
        let ghost head = sql@;
        let mut i: usize = 0;
        while i < self.indexes.len()
            invariant
                i <= self.indexes@.len(),
                sql@ == head + indexes_text(self.indexes@.take(i as int), self.name@),
            decreases self.indexes@.len() - i,
        {
            sql.append("\n\n");
            let ix = self.indexes[i].to_sql(self.name.as_str(), d);
            sql.append(ix.as_str());
            proof {
                assert(self.indexes@.take(i + 1).drop_last() =~= self.indexes@.take(i as int));
                assert(sql@ =~= head + indexes_text(self.indexes@.take(i + 1), self.name@));
            }
            i += 1;
        }
        assert(self.indexes@.take(self.indexes@.len() as int) =~= self.indexes@);
        Ok(sql)
    }
}

/// The DDL of tables in order, each followed by a blank line; `None` when
/// one fails.
pub open spec fn schema_text(ts: Seq<Table>, d: DatabaseType) -> Option<Seq<char>>
    decreases ts.len(),
{
    if ts.len() == 0 {
        Some(Seq::empty())
    } else {
        match schema_text(ts.drop_last(), d) {
            Some(a) => match table_text(ts.last(), d) {
                Some(t) => Some(a + t + "\n\n"@),
                None => None,
            },
            None => None,
        }
    }
}

/// Tables whose columns can all be written render in every dialect.
pub proof fn lemma_schema_renders(ts: Seq<Table>, d: DatabaseType)
    requires
        forall|k: int| 0 <= k < ts.len() ==> table_renders(#[trigger] ts[k]),
    ensures
        schema_text(ts, d) is Some,
    decreases ts.len(),
{
    if ts.len() > 0 {
        assert(forall|k: int| 0 <= k < ts.len() - 1 ==> #[trigger] ts.drop_last()[k] == ts[k]);
        lemma_schema_renders(ts.drop_last(), d);
        let t = ts[ts.len() - 1];
        assert(table_renders(t));
        lemma_fields_text_some(t.fields@, d, primary_names(t.fields@).len() <= 1);
    }
}

proof fn lemma_schema_prefix_fails(ts: Seq<Table>, d: DatabaseType, n: int)
    requires
        0 <= n <= ts.len(),
        schema_text(ts.take(n), d) is None,
    ensures
        schema_text(ts, d) is None,
    decreases ts.len() - n,
{
    if n < ts.len() {
        assert(ts.take(n + 1).drop_last() =~= ts.take(n));
        lemma_schema_prefix_fails(ts, d, n + 1);
    } else {
        assert(ts.take(n) =~= ts);
    }
}

/// Collects tables and renders their DDL for one dialect.
#[derive(Debug)]
pub struct SchemaBuilder {
    tables: Vec<Table>,
}

impl View for SchemaBuilder {
    type V = Seq<Table>;

    closed spec fn view(&self) -> Seq<Table> {
        self.tables@
    }
}

impl SchemaBuilder {
    /// A builder with no tables.
    pub fn new() -> (r: SchemaBuilder)
        ensures
            r@.len() == 0,
    {
        SchemaBuilder { tables: Vec::new() }
    }

    /// Appends a table.
    pub fn add_table(&mut self, table: Table)
        ensures
            final(self)@ == old(self)@.push(table),
    {
        self.tables.push(table);
    }

    /// The DDL of every table in order, each followed by a blank line.
    pub fn build(&self, d: DatabaseType) -> (r: Result<String, SqlError>)
        ensures
            match r {
                Ok(s) => schema_text(self@, d) == Some(s@),
                Err(_) => schema_text(self@, d) is None,
            },
    {
        let mut sql = String::new();
        let mut i: usize = 0;
        while i < self.tables.len()
            invariant
                i <= self.tables@.len(),
                schema_text(self.tables@.take(i as int), d) == Some(sql@),
            decreases self.tables@.len() - i,
        {
            proof {
                assert(self.tables@.take(i + 1).drop_last() =~= self.tables@.take(i as int));
                assert(self.tables@.take(i + 1).last() == self.tables@[i as int]);
            }
            let t = match self.tables[i].to_sql(d) {
                Ok(t) => t,
                Err(e) => {
                    proof {
                        lemma_schema_prefix_fails(self.tables@, d, i as int + 1);
                    }
                    return Err(e);
                },
            };
            sql.append(t.as_str());
            sql.append("\n\n");
            i += 1;
        }
        assert(self.tables@.take(self.tables@.len() as int) =~= self.tables@);
        Ok(sql)
    }
}

proof fn lemma_fields_text_dialect_free(fs: Seq<Field>, d1: DatabaseType, d2: DatabaseType, inline_pk: bool)
    ensures
        fields_text(fs, d1, inline_pk) is Some <==> fields_text(fs, d2, inline_pk) is Some,
    decreases fs.len(),
{
    if fs.len() > 0 {
        lemma_fields_text_dialect_free(fs.drop_last(), d1, d2, inline_pk);
    }
}

/// The dialects differ in syntax, not in meaning: a table renders in one
/// dialect exactly when it renders in another, with the same primary-key
/// columns and the same DEFAULT, CHECK and REFERENCES clauses on every
/// column; while the auto-increment key, the boolean and the timestamp types
/// are spelled differently in each dialect.
pub proof fn dialects_differ_in_syntax_only(t: Table, d1: DatabaseType, d2: DatabaseType)
    ensures
        table_text(t, d1) is Some <==> table_text(t, d2) is Some,
        forall|f: Field| #[trigger] field_text(f, d1, true) is Some <==> field_text(f, d2, true) is Some,
        field_type_text(FieldType::Integer(true), true, DatabaseType::MySQL) != field_type_text(
            FieldType::Integer(true), true, DatabaseType::PostgreSQL),
        field_type_text(FieldType::Integer(true), true, DatabaseType::MySQL) != field_type_text(
            FieldType::Integer(true), true, DatabaseType::SQLite),
        field_type_text(FieldType::Integer(true), true, DatabaseType::PostgreSQL) != field_type_text(
            FieldType::Integer(true), true, DatabaseType::SQLite),
        primary_text(FieldType::Integer(true), DatabaseType::SQLite) != primary_text(
            FieldType::Integer(true), DatabaseType::PostgreSQL),
        field_type_text(FieldType::Boolean, false, DatabaseType::SQLite) != field_type_text(
            FieldType::Boolean, false, DatabaseType::PostgreSQL),
        field_type_text(FieldType::Timestamp, false, DatabaseType::MySQL) != field_type_text(
            FieldType::Timestamp, false, DatabaseType::PostgreSQL),
        field_type_text(FieldType::Timestamp, false, DatabaseType::MySQL) != field_type_text(
            FieldType::Timestamp, false, DatabaseType::SQLite),
        field_type_text(FieldType::Timestamp, false, DatabaseType::PostgreSQL) != field_type_text(
            FieldType::Timestamp, false, DatabaseType::SQLite),
{
    let pks = primary_names(t.fields@);
    lemma_fields_text_dialect_free(t.fields@, d1, d2, pks.len() <= 1);
    reveal_strlit("INT AUTO_INCREMENT");
    reveal_strlit("INTEGER GENERATED ALWAYS AS IDENTITY");
    reveal_strlit("INTEGER");
    reveal_strlit("BOOLEAN");
    reveal_strlit("TIMESTAMP");
    reveal_strlit("TIMESTAMP WITH TIME ZONE");
    reveal_strlit("TEXT");
    reveal_strlit(" PRIMARY KEY AUTOINCREMENT");
    reveal_strlit(" PRIMARY KEY");
    assert("INTEGER"@[0] != "BOOLEAN"@[0]);
    assert("INT AUTO_INCREMENT"@.len() != "INTEGER GENERATED ALWAYS AS IDENTITY"@.len());
    assert(" PRIMARY KEY AUTOINCREMENT"@.len() != " PRIMARY KEY"@.len());
    assert("TIMESTAMP"@[1] != "TEXT"@[1]);
    assert("TIMESTAMP"@.len() != "TIMESTAMP WITH TIME ZONE"@.len());
}

} // verus!
