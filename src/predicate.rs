//! Predicate trees and their compilation to a SQL fragment with an ordered
//! list of bound parameters.

use vstd::prelude::*;
use crate::error::SqlError;
use crate::identifier::{identifier_grammar, Identifier};
use crate::text::{join, join_strings};
use crate::value::{placeholder, placeholder_string, DatabaseType, SafeValue};

verus! {

/// A comparison between a column and a value.
#[derive(Clone, Copy, Debug, PartialEq, Eq, Hash, Structural)]
pub enum Operator {
    Eq,
    Ne,
    Gt,
    Lt,
    Gte,
    Lte,
    Like,
    In,
    IsNull,
    IsNotNull,
}

/// The SQL spelling of an operator.
pub open spec fn operator_text(op: Operator) -> Seq<char> {
    match op {
        Operator::Eq => "="@,
        Operator::Ne => "!="@,
        Operator::Gt => ">"@,
        Operator::Lt => "<"@,
        Operator::Gte => ">="@,
        Operator::Lte => "<="@,
        Operator::Like => "LIKE"@,
        Operator::In => "IN"@,
        Operator::IsNull => "IS NULL"@,
        Operator::IsNotNull => "IS NOT NULL"@,
    }
}

/// Whether an operator takes a value (all but `IS NULL` and `IS NOT NULL`).
pub open spec fn needs_value(op: Operator) -> bool {
    !(op == Operator::IsNull || op == Operator::IsNotNull)
}

impl Operator {
    /// The SQL spelling.
    pub fn as_str(&self) -> (r: &'static str)
        ensures
            r@ == operator_text(*self),
    {
        match self {
            Operator::Eq => "=",
            Operator::Ne => "!=",
            Operator::Gt => ">",
            Operator::Lt => "<",
            Operator::Gte => ">=",
            Operator::Lte => "<=",
            Operator::Like => "LIKE",
            Operator::In => "IN",
            Operator::IsNull => "IS NULL",
            Operator::IsNotNull => "IS NOT NULL",
        }
    }

    /// Whether the operator takes a value.
    pub fn takes_value(&self) -> (r: bool)
        ensures
            r == needs_value(*self),
    {
        !matches!(self, Operator::IsNull | Operator::IsNotNull)
    }
}

/// `field operator [value]`: a leaf of a predicate tree. Built only by
/// `Condition::new`, so a value is present exactly when the operator takes one.
#[derive(Debug)]
pub struct Condition {
    field: Identifier,
    operator: Operator,
    value: Option<SafeValue>,
}

impl Clone for Condition {
    fn clone(&self) -> (r: Condition)
        ensures
            r == *self,
    {
        proof {
            use_type_invariant(self);
        }
        let value = match &self.value {
            Some(v) => Some(v.clone()),
            None => None,
        };
        Condition { field: self.field.clone(), operator: self.operator, value }
    }
}

impl Condition {
    /// The column compared.
    pub closed spec fn spec_field(&self) -> Seq<char> {
        self.field@
    }

    /// The comparison.
    pub closed spec fn spec_operator(&self) -> Operator {
        self.operator
    }

    /// The value compared with, if the operator takes one.
    pub closed spec fn spec_value(&self) -> Option<SafeValue> {
        self.value
    }

    /// A value is present exactly when the operator takes one.
    pub open spec fn well_formed(&self) -> bool {
        self.spec_value() is Some <==> needs_value(self.spec_operator())
    }

    #[verifier::type_invariant]
    spec fn inv(&self) -> bool {
        self.value is Some <==> needs_value(self.operator)
    }

    /// The column compared.
    pub fn field(&self) -> (r: &Identifier)
        ensures
            r@ == self.spec_field(),
    {
        &self.field
    }

    /// The comparison.
    pub fn operator(&self) -> (r: Operator)
        ensures
            r == self.spec_operator(),
    {
        self.operator
    }

    /// The value compared with; present exactly when the operator takes one.
    pub fn value(&self) -> (r: &Option<SafeValue>)
        ensures
            *r == self.spec_value(),
            r is Some <==> needs_value(self.spec_operator()),
    {
        proof {
            use_type_invariant(self);
        }
        &self.value
    }

    /// A condition on `field`; fails on a name outside the identifier grammar,
    /// then on a value missing for an operator that takes one, then on a value
    /// given to `IS NULL` / `IS NOT NULL`.
    pub fn new(field: String, operator: Operator, value: Option<SafeValue>) -> (r: Result<Condition, SqlError>)
        ensures
            r is Ok <==> identifier_grammar(field@) && (value is Some <==> needs_value(operator)),
            r matches Ok(c) ==> c.spec_field() == field@ && c.spec_operator() == operator
                && c.spec_value() == value && c.well_formed(),
            !identifier_grammar(field@) ==> r == Err::<Condition, SqlError>(SqlError::InvalidIdentifier(field)),
            identifier_grammar(field@) && needs_value(operator) && value is None ==> (r matches Err(
                SqlError::MissingValue(f)) && f@ == field@),
            identifier_grammar(field@) && !needs_value(operator) && value is Some ==> (r matches Err(
                SqlError::UnexpectedValue(f)) && f@ == field@),
    {
        let id = match Identifier::new(field) {
            Ok(id) => id,
            Err(e) => {
                return Err(e);
            },
        };
        if operator.takes_value() && value.is_none() {
            return Err(SqlError::MissingValue(id.as_str().to_owned()));
        }
        if !operator.takes_value() && value.is_some() {
            return Err(SqlError::UnexpectedValue(id.as_str().to_owned()));
        }
        Ok(Condition { field: id, operator, value })
    }
}

/// A boolean expression over conditions.
#[derive(Debug)]
pub enum WhereClause {
    And(Vec<WhereClause>),
    Or(Vec<WhereClause>),
    Condition(Condition),
    Not(Condition),
}

/// The text of a condition and the parameters it binds, its placeholder being
/// the `next`-th parameter. A NULL value is written inline and binds nothing.
/// Every condition that exists is well formed (the type invariant of
/// `Condition`), so `field op` stands alone exactly for `IS [NOT] NULL`.
pub open spec fn condition_text(c: Condition, d: DatabaseType, next: nat) -> (Seq<char>, Seq<SafeValue>) {
    let head = c.spec_field() + " "@ + operator_text(c.spec_operator());
    match c.spec_value() {
        None => (head, Seq::empty()),
        Some(v) => if v is Null {
            (head + " "@ + "NULL"@, Seq::empty())
        } else {
            (head + " "@ + placeholder(d, next), seq![v])
        },
    }
}

/// The fragment of a predicate tree and the parameters it binds in order,
/// its first placeholder being the `next`-th parameter. A leaf is wrapped in
/// parentheses, `Not` in `NOT (...)`, and the children of `And` / `Or` are
/// joined with ` AND ` / ` OR ` inside one pair of parentheses.
pub open spec fn clause_text(w: WhereClause, d: DatabaseType, next: nat) -> (Seq<char>, Seq<SafeValue>)
    decreases w,
{
    match w {
        WhereClause::Condition(c) => {
            let t = condition_text(c, d, next);
            ("("@ + t.0 + ")"@, t.1)
        },
        WhereClause::Not(c) => {
            let t = condition_text(c, d, next);
            ("NOT ("@ + t.0 + ")"@, t.1)
        },
        WhereClause::And(cs) => {
            let t = list_text(cs@, d, next);
            ("("@ + join(t.0, " AND "@) + ")"@, t.1)
        },
        WhereClause::Or(cs) => {
            let t = list_text(cs@, d, next);
            ("("@ + join(t.0, " OR "@) + ")"@, t.1)
        },
    }
}

/// The fragments of a list of trees compiled one after the other, and all
/// their parameters in order.
pub open spec fn list_text(cs: Seq<WhereClause>, d: DatabaseType, next: nat) -> (Seq<Seq<char>>, Seq<SafeValue>)
    decreases cs,
{
    if cs.len() == 0 {
        (Seq::empty(), Seq::empty())
    } else {
        let a = list_text(cs.drop_last(), d, next);
        let b = clause_text(cs.last(), d, next + a.1.len());
        (a.0.push(b.0), a.1 + b.1)
    }
}

fn compile_condition(c: &Condition, d: DatabaseType, params: &mut Vec<SafeValue>) -> (r: String)
    ensures
        r@ == condition_text(*c, d, (old(params)@.len() + 1) as nat).0,
        final(params)@ == old(params)@ + condition_text(*c, d, (old(params)@.len() + 1) as nat).1,
{
    let mut out = String::from_str(c.field.as_str());
    out.append(" ");
    out.append(c.operator.as_str());
    match &c.value {
        None => {
            assert(params@ =~= old(params)@ + Seq::empty());
        },
        Some(v) => {
            out.append(" ");
            if matches!(v, SafeValue::Null) {
                out.append("NULL");
                assert(params@ =~= old(params)@ + Seq::empty());
            } else {
                let p = placeholder_string(d, params.len() as u128 + 1);
                out.append(p.as_str());
                params.push(v.clone());
                assert(params@ =~= old(params)@ + seq![*v]);
            }
        },
    }
    out
}

impl WhereClause {
    /// Compiles the tree depth-first, appending the values it binds to
    /// `params`; placeholders are numbered on from the parameters already there.
    pub fn compile(&self, d: DatabaseType, params: &mut Vec<SafeValue>) -> (r: String)
        ensures
            r@ == clause_text(*self, d, (old(params)@.len() + 1) as nat).0,
            final(params)@ == old(params)@ + clause_text(*self, d, (old(params)@.len() + 1) as nat).1,
        decreases self,
    {
        match self {
            WhereClause::Condition(c) => {
                let t = compile_condition(c, d, params);
                let mut out = String::from_str("(");
                out.append(t.as_str());
                out.append(")");
                out
            },
            WhereClause::Not(c) => {
                let t = compile_condition(c, d, params);
                let mut out = String::from_str("NOT (");
                out.append(t.as_str());
                out.append(")");
                out
            },
            WhereClause::And(cs) => {
                let parts = compile_list(cs, d, params);
                let mut out = String::from_str("(");
                let joined = join_strings(&parts, " AND ");
                out.append(joined.as_str());
                out.append(")");
                out
            },
            WhereClause::Or(cs) => {
                let parts = compile_list(cs, d, params);
                let mut out = String::from_str("(");
                let joined = join_strings(&parts, " OR ");
                out.append(joined.as_str());
                out.append(")");
                out
            },
        }
    }
}

fn compile_list(cs: &Vec<WhereClause>, d: DatabaseType, params: &mut Vec<SafeValue>) -> (r: Vec<String>)
    ensures
        r@.map_values(|p: String| p@) == list_text(cs@, d, (old(params)@.len() + 1) as nat).0,
        final(params)@ == old(params)@ + list_text(cs@, d, (old(params)@.len() + 1) as nat).1,
    decreases cs,
{
    let ghost start = params@;
    let ghost next = (start.len() + 1) as nat;
    let mut parts: Vec<String> = Vec::new();
    let mut i: usize = 0;
    while i < cs.len()
        invariant
            i <= cs@.len(),
            next == start.len() + 1,
            parts@.map_values(|p: String| p@) == list_text(cs@.take(i as int), d, next).0,
            params@ == start + list_text(cs@.take(i as int), d, next).1,
        decreases cs@.len() - i,
    {
        let t = cs[i].compile(d, params);
        proof {
            assert(cs@.take(i + 1).drop_last() =~= cs@.take(i as int));
            assert(cs@.take(i + 1).last() == cs@[i as int]);
        }
        parts.push(t);
        proof {
            let a = list_text(cs@.take(i as int), d, next);
            assert(parts@.map_values(|p: String| p@) =~= a.0.push(t@));
            assert(params@ =~= start + (a.1 + clause_text(cs@[i as int], d, next + a.1.len()).1));
        }
        i += 1;
    }
    assert(cs@.take(cs@.len() as int) =~= cs@);
    parts
}

} // verus!
