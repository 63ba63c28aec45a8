//! The query builder: one statement assembled from a table, a projection,
//! an ordered field/value list, a predicate tree and pagination, rendered
//! to SQL text and the ordered list of values to bind.

use vstd::prelude::*;
use crate::error::SqlError;
use crate::identifier::{identifier_grammar, names_of, Identifier};
use crate::predicate::{clause_text, WhereClause};
use crate::text::{decimal, decimal_string, join, join_strings};
use crate::validator::{text_valid, validation_result, TextValidator};
use crate::value::{placeholder, placeholder_string, DatabaseType, SafeValue};

verus! {

/// The kind of statement.
#[derive(Clone, Copy, Debug, PartialEq, Eq, Hash, Structural)]
pub enum SqlOperation {
    Select,
    Insert,
    Update,
    Delete,
}

/// What a builder holds, with names as character sequences.
pub struct QueryModel {
    pub operation: SqlOperation,
    pub table: Seq<char>,
    pub fields: Seq<Seq<char>>,
    pub values: Seq<(Seq<char>, SafeValue)>,
    pub where_clause: Option<WhereClause>,
    pub order_by: Option<Seq<char>>,
    pub limit: Option<u64>,
    pub offset: Option<u64>,
    pub dialect: DatabaseType,
}

/// `vals` with `(f, v)` in place of the first pair on `f`, or appended when
/// no pair is on `f`; so the order in which fields were first set is kept.
pub open spec fn assign(vals: Seq<(Seq<char>, SafeValue)>, f: Seq<char>, v: SafeValue) -> Seq<(Seq<char>, SafeValue)> {
    if exists|i: int| 0 <= i < vals.len() && #[trigger] vals[i].0 == f {
        let i = choose|i: int|
            0 <= i < vals.len() && #[trigger] vals[i].0 == f && forall|j: int| 0 <= j < i ==> vals[j].0 != f;
        vals.update(i, (f, v))
    } else {
        vals.push((f, v))
    }
}

/// Whether no field appears twice in a field/value list.
pub open spec fn fields_distinct(vals: Seq<(Seq<char>, SafeValue)>) -> bool {
    forall|i: int, j: int| 0 <= i < j < vals.len() ==> #[trigger] vals[i].0 != #[trigger] vals[j].0
}

/// Setting a value keeps the list a mapping: a list without repeated fields
/// stays without them, and afterwards the field is bound to the value.
pub proof fn assign_keeps_fields_distinct(vals: Seq<(Seq<char>, SafeValue)>, f: Seq<char>, v: SafeValue)
    requires
        fields_distinct(vals),
    ensures
        fields_distinct(assign(vals, f, v)),
        exists|i: int| 0 <= i < assign(vals, f, v).len() && #[trigger] assign(vals, f, v)[i] == (f, v),
{
    let r = assign(vals, f, v);
    if exists|i: int| 0 <= i < vals.len() && #[trigger] vals[i].0 == f {
        let k = choose|i: int|
            0 <= i < vals.len() && #[trigger] vals[i].0 == f && forall|j: int| 0 <= j < i ==> vals[j].0 != f;
        assert(r[k] == (f, v));
    } else {
        assert(r[vals.len() as int] == (f, v));
    }
}

/// For a field/value list: the slot of each value (a placeholder, or `NULL`
/// written inline), each `field = slot`, and the non-NULL values in order.
pub open spec fn assignments(vals: Seq<(Seq<char>, SafeValue)>, d: DatabaseType) -> (Seq<Seq<char>>, Seq<Seq<char>>, Seq<SafeValue>)
    decreases vals.len(),
{
    if vals.len() == 0 {
        (Seq::empty(), Seq::empty(), Seq::empty())
    } else {
        let a = assignments(vals.drop_last(), d);
        let f = vals.last().0;
        let v = vals.last().1;
        let slot = if v is Null { "NULL"@ } else { placeholder(d, a.2.len() + 1) };
        let ps = if v is Null { a.2 } else { a.2.push(v) };
        (a.0.push(slot), a.1.push(f + " = "@ + slot), ps)
    }
}

/// The operation clause and the values it binds.
pub open spec fn head_text(m: QueryModel) -> (Seq<char>, Seq<SafeValue>) {
    let a = assignments(m.values, m.dialect);
    match m.operation {
        SqlOperation::Select => {
            let proj = if m.fields.len() == 0 { "*"@ } else { join(m.fields, ", "@) };
            ("SELECT "@ + proj + " FROM "@ + m.table, Seq::empty())
        },
        SqlOperation::Insert => (
            "INSERT INTO "@ + m.table + " ("@ + join(m.values.map_values(|p: (Seq<char>, SafeValue)| p.0), ", "@)
                + ") VALUES ("@ + join(a.0, ", "@) + ")"@,
            a.2,
        ),
        SqlOperation::Update => ("UPDATE "@ + m.table + " SET "@ + join(a.1, ", "@), a.2),
        SqlOperation::Delete => ("DELETE FROM "@ + m.table, Seq::empty()),
    }
}

/// ` ORDER BY`, ` LIMIT` and ` OFFSET`, each when set, in that order.
pub open spec fn pagination_text(m: QueryModel) -> Seq<char> {
    let o = match m.order_by {
        Some(f) => " ORDER BY "@ + f,
        None => Seq::empty(),
    };
    let l = match m.limit {
        Some(n) => " LIMIT "@ + decimal(n as nat),
        None => Seq::empty(),
    };
    let f = match m.offset {
        Some(n) => " OFFSET "@ + decimal(n as nat),
        None => Seq::empty(),
    };
    o + l + f
}

/// The statement and its parameters: the operation clause, then ` WHERE` with
/// placeholders numbered on from the operation's own, then pagination.
pub open spec fn statement(m: QueryModel) -> (Seq<char>, Seq<SafeValue>) {
    let h = head_text(m);
    let w = match m.where_clause {
        Some(w) => {
            let c = clause_text(w, m.dialect, h.1.len() + 1);
            (h.0 + " WHERE "@ + c.0, h.1 + c.1)
        },
        None => h,
    };
    (w.0 + pagination_text(m), w.1)
}

/// A value passes when it is not text, or its text passes its own level.
pub open spec fn value_valid(v: SafeValue) -> bool {
    match v {
        SafeValue::Text(t, l) => text_valid(t@, l),
        _ => true,
    }
}

/// Whether every value of `ps` passes.
pub open spec fn all_values_valid(ps: Seq<SafeValue>) -> bool {
    forall|i: int| 0 <= i < ps.len() ==> value_valid(#[trigger] ps[i])
}

/// Whether `i` is the first value of `ps` that fails.
pub open spec fn first_invalid(ps: Seq<SafeValue>, i: int) -> bool {
    0 <= i < ps.len() && !value_valid(ps[i]) && forall|j: int| 0 <= j < i ==> value_valid(#[trigger] ps[j])
}

/// Whether `e` is the validation error of the first value of `ps` that fails.
pub open spec fn first_invalid_error(ps: Seq<SafeValue>, e: SqlError) -> bool {
    exists|i: int|
        #[trigger] first_invalid(ps, i) && (ps[i] matches SafeValue::Text(t, l) && validation_result(
            t@,
            l,
            Err(e),
        ))
}

/// Whether `r` is what building `m` gives. Every text value that the
/// statement binds (from the value list or from a leaf of the predicate tree;
/// NULL is never text) must pass its own level: the build fails with the
/// validation error of the first one, in parameter order, that does not.
/// Otherwise it gives the statement and its parameters.
pub open spec fn build_result(m: QueryModel, r: Result<(String, Vec<SafeValue>), SqlError>) -> bool {
    let s = statement(m);
    if all_values_valid(s.1) {
        r matches Ok((q, p)) && q@ == s.0 && p@ == s.1
    } else {
        r matches Err(e) && first_invalid_error(s.1, e)
    }
}

/// Assembles one SQL statement.
#[derive(Debug)]
pub struct QueryBuilder {
    operation: SqlOperation,
    table: Identifier,
    fields: Vec<Identifier>,
    values: Vec<(Identifier, SafeValue)>,
    where_clause: Option<WhereClause>,
    order_by: Option<Identifier>,
    limit: Option<u64>,
    offset: Option<u64>,
    db_type: DatabaseType,
}

impl View for QueryBuilder {
    type V = QueryModel;

    closed spec fn view(&self) -> QueryModel {
        QueryModel {
            operation: self.operation,
            table: self.table@,
            fields: self.fields@.map_values(|f: Identifier| f@),
            values: self.values@.map_values(|p: (Identifier, SafeValue)| (p.0@, p.1)),
            where_clause: self.where_clause,
            order_by: match self.order_by {
                Some(f) => Some(f@),
                None => None,
            },
            limit: self.limit,
            offset: self.offset,
            dialect: self.db_type,
        }
    }
}

impl QueryBuilder {
    /// A builder for `operation` on `table`; fails on a table name outside the
    /// identifier grammar.
    pub fn new(operation: SqlOperation, table: String, db_type: DatabaseType) -> (r: Result<QueryBuilder, SqlError>)
        ensures
            match r {
                Ok(b) => identifier_grammar(table@) && b@ == (QueryModel {
                    operation,
                    table: table@,
                    fields: Seq::empty(),
                    values: Seq::empty(),
                    where_clause: None,
                    order_by: None,
                    limit: None,
                    offset: None,
                    dialect: db_type,
                }),
                Err(e) => !identifier_grammar(table@) && e == SqlError::InvalidIdentifier(table),
            },
    {
        let table = match Identifier::new(table) {
            Ok(t) => t,
            Err(e) => {
                return Err(e);
            },
        };
        let b = QueryBuilder {
            operation,
            table,
            fields: Vec::new(),
            values: Vec::new(),
            where_clause: None,
            order_by: None,
            limit: None,
            offset: None,
            db_type,
        };
        assert(b@.fields =~= Seq::empty());
        assert(b@.values =~= Seq::empty());
        Ok(b)
    }

    /// Adds a column to the projection of a Select; fails on a name outside
    /// the identifier grammar and leaves the builder as it was.
    pub fn add_field(&mut self, field: String) -> (r: Result<(), SqlError>)
        ensures
            match r {
                Ok(()) => identifier_grammar(field@) && final(self)@ == (QueryModel {
                    fields: old(self)@.fields.push(field@),
                    ..old(self)@
                }),
                Err(e) => !identifier_grammar(field@) && e == SqlError::InvalidIdentifier(field)
                    && final(self)@ == old(self)@,
            },
    {
        let id = match Identifier::new(field) {
            Ok(id) => id,
            Err(e) => {
                return Err(e);
            },
        };
        self.fields.push(id);
        assert(self@.fields =~= old(self)@.fields.push(field@));
        Ok(())
    }

    /// Sets the value of a field for an Insert or Update: a field set before
    /// keeps its place and takes the new value, a new one goes last. Fails on
    /// a name outside the identifier grammar and leaves the builder as it was.
    pub fn set_value(&mut self, field: String, value: SafeValue) -> (r: Result<(), SqlError>)
        ensures
            match r {
                Ok(()) => identifier_grammar(field@) && final(self)@ == (QueryModel {
                    values: assign(old(self)@.values, field@, value),
                    ..old(self)@
                }),
                Err(e) => !identifier_grammar(field@) && e == SqlError::InvalidIdentifier(field)
                    && final(self)@ == old(self)@,
            },
    {
        let id = match Identifier::new(field) {
            Ok(id) => id,
            Err(e) => {
                return Err(e);
            },
        };
        let ghost vals = old(self)@.values;
        let ghost f = id@;
        let mut i: usize = 0;
        while i < self.values.len()
            invariant
                i <= self.values@.len(),
                *self == *old(self),
                f == id@,
                f == field@,
                identifier_grammar(field@),
                vals == self@.values,
                vals.len() == self.values@.len(),
                forall|j: int| 0 <= j < i ==> vals[j].0 != f,
            decreases self.values@.len() - i,
        {
            assert(vals[i as int].0 == self.values@[i as int].0@);
            let same = self.values[i].0.same_name(&id);
            if same {
                proof {
                    assert(vals[i as int].0 == f);
                    assert(forall|j: int| 0 <= j < i ==> vals[j].0 != f);
                    let k = choose|k: int|
                        0 <= k < vals.len() && #[trigger] vals[k].0 == f && forall|j: int|
                            0 <= j < k ==> vals[j].0 != f;
                    assert(k == i);
                }
                self.values.set(i, (id, value));
                assert(self@.values =~= assign(vals, f, value));
                return Ok(());
            }
            i += 1;
        }
        self.values.push((id, value));
        assert(self@.values =~= assign(vals, f, value));
        Ok(())
    }

    /// Sets the predicate tree, replacing any earlier one.
    pub fn add_condition(&mut self, condition: WhereClause)
        ensures
            final(self)@ == (QueryModel { where_clause: Some(condition), ..old(self)@ }),
    {
        self.where_clause = Some(condition);
    }

    /// Orders the result by a column; fails on a name outside the identifier
    /// grammar and leaves the builder as it was.
    pub fn set_order_by(&mut self, field: String) -> (r: Result<(), SqlError>)
        ensures
            match r {
                Ok(()) => identifier_grammar(field@) && final(self)@ == (QueryModel {
                    order_by: Some(field@),
                    ..old(self)@
                }),
                Err(e) => !identifier_grammar(field@) && e == SqlError::InvalidIdentifier(field)
                    && final(self)@ == old(self)@,
            },
    {
        let id = match Identifier::new(field) {
            Ok(id) => id,
            Err(e) => {
                return Err(e);
            },
        };
        self.order_by = Some(id);
        Ok(())
    }

    /// Caps the number of rows returned.
    pub fn set_limit(&mut self, limit: u64)
        ensures
            final(self)@ == (QueryModel { limit: Some(limit), ..old(self)@ }),
    {
        self.limit = Some(limit);
    }

    /// The names, slots and `field = slot` texts of the field/value list, with
    /// its non-NULL values appended to the empty `params`.
    fn build_assignments(&self, params: &mut Vec<SafeValue>) -> (r: (Vec<String>, Vec<String>, Vec<String>))
        requires
            old(params)@.len() == 0,
        ensures
            r.0@.map_values(|s: String| s@) == self@.values.map_values(|p: (Seq<char>, SafeValue)| p.0),
            r.1@.map_values(|s: String| s@) == assignments(self@.values, self@.dialect).0,
            r.2@.map_values(|s: String| s@) == assignments(self@.values, self@.dialect).1,
            final(params)@ == assignments(self@.values, self@.dialect).2,
    {
        let ghost vals = self@.values;
        let ghost d = self@.dialect;
        let mut names: Vec<String> = Vec::new();
        let mut slots: Vec<String> = Vec::new();
        let mut sets: Vec<String> = Vec::new();
        let mut i: usize = 0;
        while i < self.values.len()
            invariant
                i <= self.values@.len(),
                vals == self@.values,
                d == self.db_type,
                vals.len() == self.values@.len(),
                names@.map_values(|s: String| s@) == vals.take(i as int).map_values(
                    |p: (Seq<char>, SafeValue)| p.0,
                ),
                slots@.map_values(|s: String| s@) == assignments(vals.take(i as int), d).0,
                sets@.map_values(|s: String| s@) == assignments(vals.take(i as int), d).1,
                params@ == assignments(vals.take(i as int), d).2,
            decreases self.values@.len() - i,
        {
            let ghost a = assignments(vals.take(i as int), d);
            let name = self.values[i].0.as_str();
            let v = &self.values[i].1;
            assert(vals[i as int] == (self.values@[i as int].0@, self.values@[i as int].1));
            let slot = if matches!(v, SafeValue::Null) {
                String::from_str("NULL")
            } else {
                let p = placeholder_string(self.db_type, params.len() as u128 + 1);
                params.push(v.clone());
                p
            };
            let mut set = String::from_str(name);
            set.append(" = ");
            set.append(slot.as_str());
            names.push(name.to_owned());
            slots.push(slot);
            sets.push(set);
            proof {
                assert(vals.take(i + 1).drop_last() =~= vals.take(i as int));
                assert(vals.take(i + 1).last() == vals[i as int]);
                assert(vals.take(i + 1).map_values(|p: (Seq<char>, SafeValue)| p.0) =~= vals.take(
                    i as int,
                ).map_values(|p: (Seq<char>, SafeValue)| p.0).push(vals[i as int].0));
                assert(names@.map_values(|s: String| s@) =~= vals.take(i + 1).map_values(
                    |p: (Seq<char>, SafeValue)| p.0,
                ));
                assert(slots@.map_values(|s: String| s@) =~= assignments(vals.take(i + 1), d).0);
                assert(sets@.map_values(|s: String| s@) =~= assignments(vals.take(i + 1), d).1);
                assert(params@ =~= assignments(vals.take(i + 1), d).2);
            }
            i += 1;
        }
        assert(vals.take(vals.len() as int) =~= vals);
        (names, slots, sets)
    }

    /// The operation clause, with the values it binds appended to the empty `params`.
    fn build_head(&self, params: &mut Vec<SafeValue>) -> (r: String)
        requires
            old(params)@.len() == 0,
        ensures
            r@ == head_text(self@).0,
            final(params)@ == head_text(self@).1,
    {
        match self.operation {
            SqlOperation::Select => {
                let mut q = String::from_str("SELECT ");
                if self.fields.len() == 0 {
                    q.append("*");
                } else {
                    let names = names_of(&self.fields);
                    let joined = join_strings(&names, ", ");
                    q.append(joined.as_str());
                }
                q.append(" FROM ");
                q.append(self.table.as_str());
                assert(params@ =~= Seq::empty());
                q
            },
            SqlOperation::Insert => {
                let (names, slots, _sets) = self.build_assignments(params);
                let mut q = String::from_str("INSERT INTO ");
                q.append(self.table.as_str());
                q.append(" (");
                let joined = join_strings(&names, ", ");
                q.append(joined.as_str());
                q.append(") VALUES (");
                let joined = join_strings(&slots, ", ");
                q.append(joined.as_str());
                q.append(")");
                q
            },
            SqlOperation::Update => {
                let (_names, _slots, sets) = self.build_assignments(params);
                let mut q = String::from_str("UPDATE ");
                q.append(self.table.as_str());
                q.append(" SET ");
                let joined = join_strings(&sets, ", ");
                q.append(joined.as_str());
                q
            },
            SqlOperation::Delete => {
                let mut q = String::from_str("DELETE FROM ");
                q.append(self.table.as_str());
                assert(params@ =~= Seq::empty());
                q
            },
        }
    }

    /// Appends ` ORDER BY`, ` LIMIT` and ` OFFSET` as set.
    fn append_pagination(&self, query: &mut String)
        ensures
            final(query)@ == old(query)@ + pagination_text(self@),
    {
        match &self.order_by {
            Some(f) => {
                query.append(" ORDER BY ");
                query.append(f.as_str());
            },
            None => {},
        }
        match self.limit {
            Some(n) => {
                query.append(" LIMIT ");
                let s = decimal_string(n as u128);
                query.append(s.as_str());
            },
            None => {},
        }
        match self.offset {
            Some(n) => {
                query.append(" OFFSET ");
                let s = decimal_string(n as u128);
                query.append(s.as_str());
            },
            None => {},
        }
        proof {
            let m = self@;
            let o = match m.order_by {
                Some(f) => " ORDER BY "@ + f,
                None => Seq::<char>::empty(),
            };
            let l = match m.limit {
                Some(n) => " LIMIT "@ + decimal(n as nat),
                None => Seq::<char>::empty(),
            };
            let f = match m.offset {
                Some(n) => " OFFSET "@ + decimal(n as nat),
                None => Seq::<char>::empty(),
            };
            assert(query@ =~= old(query)@ + (o + l + f));
        }
    }

    /// The statement text and the values to bind, in placeholder order; fails
    /// when a bound text value does not pass its level. Does not change the
    /// builder, so building twice gives the same result.
    pub fn build(&self) -> (r: Result<(String, Vec<SafeValue>), SqlError>)
        ensures
            build_result(self@, r),
    {
        let mut params: Vec<SafeValue> = Vec::new();
        let mut query = self.build_head(&mut params);
        let ghost h = head_text(self@);
        match &self.where_clause {
            Some(w) => {
                query.append(" WHERE ");
                let c = w.compile(self.db_type, &mut params);
                query.append(c.as_str());
            },
            None => {},
        }
        self.append_pagination(&mut query);
        let ghost s = statement(self@);
        assert(query@ =~= s.0);
        assert(params@ =~= s.1);
        let validator = TextValidator::new();
        let mut i: usize = 0;
        while i < params.len()
            invariant
                i <= params@.len(),
                s == statement(self@),
                params@ == s.1,
                forall|j: int| 0 <= j < i ==> value_valid(#[trigger] params@[j]),
            decreases params@.len() - i,
        {
            match &params[i] {
                SafeValue::Text(t, l) => {
                    match validator.validate(t.as_str(), *l) {
                        Err(e) => {
                            assert(first_invalid(s.1, i as int));
                            assert(!all_values_valid(s.1));
                            assert(first_invalid_error(s.1, e));
                            return Err(e);
                        },
                        Ok(()) => {},
                    }
                },
                _ => {},
            }
            i += 1;
        }
        Ok((query, params))
    }

    /// Skips rows before the first one returned.
    pub fn set_offset(&mut self, offset: u64)
        ensures
            final(self)@ == (QueryModel { offset: Some(offset), ..old(self)@ }),
    {
        self.offset = Some(offset);
    }
}

/// Building does not depend on anything but the builder's contents: two
/// builds of the same builder agree on success; on success they give the
/// same statement and parameters, on failure the same validation error.
pub proof fn build_is_idempotent(
    m: QueryModel,
    r1: Result<(String, Vec<SafeValue>), SqlError>,
    r2: Result<(String, Vec<SafeValue>), SqlError>,
)
    requires
        build_result(m, r1),
        build_result(m, r2),
    ensures
        r1 is Ok <==> r2 is Ok,
        r1 matches Ok((q1, p1)) ==> (r2 matches Ok((q2, p2)) && q1@ == q2@ && p1@ == p2@),
        r1 matches Err(SqlError::Validation(f1, t1, l1)) ==> (r2 matches Err(
            SqlError::Validation(f2, t2, l2)) && f1 == f2 && t1@ == t2@ && l1 == l2),
{
    let ps = statement(m).1;
    if let Err(e1) = r1 {
        if let Err(e2) = r2 {
            let i1 = choose|i: int|
                #[trigger] first_invalid(ps, i) && (ps[i] matches SafeValue::Text(t, l)
                    && validation_result(t@, l, Err(e1)));
            let i2 = choose|i: int|
                #[trigger] first_invalid(ps, i) && (ps[i] matches SafeValue::Text(t, l)
                    && validation_result(t@, l, Err(e2)));
            if i1 < i2 {
                assert(value_valid(ps[i1]));
            } else if i2 < i1 {
                assert(value_valid(ps[i2]));
            }
        }
    }
}

/// The values a field/value list binds: the non-NULL ones, in field order.
pub open spec fn bound_values(vals: Seq<(Seq<char>, SafeValue)>) -> Seq<SafeValue> {
    vals.map_values(|p: (Seq<char>, SafeValue)| p.1).filter(|v: SafeValue| !(v is Null))
}

/// The slot of the `i`-th value of a list: `NULL` written inline for a NULL,
/// else the placeholder of the next bound parameter.
pub open spec fn slot_of(vals: Seq<(Seq<char>, SafeValue)>, d: DatabaseType, i: int) -> Seq<char> {
    if vals[i].1 is Null {
        "NULL"@
    } else {
        placeholder(d, bound_values(vals.take(i)).len() + 1)
    }
}

proof fn lemma_assignments(vals: Seq<(Seq<char>, SafeValue)>, d: DatabaseType)
    ensures
        assignments(vals, d).0.len() == vals.len(),
        assignments(vals, d).1.len() == vals.len(),
        assignments(vals, d).2 == bound_values(vals),
        forall|i: int| 0 <= i < vals.len() ==> #[trigger] assignments(vals, d).0[i] == slot_of(vals, d, i),
        forall|i: int| 0 <= i < vals.len() ==> #[trigger] assignments(vals, d).1[i] == vals[i].0 + " = "@
            + slot_of(vals, d, i),
    decreases vals.len(),
{
    reveal(Seq::filter);
    if vals.len() == 0 {
        assert(bound_values(vals) =~= Seq::<SafeValue>::empty());
    } else {
        let n = vals.len() - 1;
        let prev = vals.drop_last();
        lemma_assignments(prev, d);
        let f = |p: (Seq<char>, SafeValue)| p.1;
        assert(vals.map_values(f).drop_last() =~= prev.map_values(f));
        assert(vals.map_values(f).last() == vals.last().1);
        assert(prev =~= vals.take(n));
        assert forall|i: int| 0 <= i < n implies #[trigger] vals.take(i) =~= prev.take(i) by {}
        assert forall|i: int| 0 <= i < n implies slot_of(vals, d, i) == slot_of(prev, d, i) by {
            assert(vals.take(i) =~= prev.take(i));
        }
    }
}

/// An Insert with no predicate or pagination names the fields in the order
/// they were first set; each value's slot is `NULL` for a NULL and otherwise
/// the placeholder of the next bound parameter; and it binds exactly the
/// non-NULL values, in field order.
pub proof fn insert_statement_law(m: QueryModel)
    requires
        m.operation == SqlOperation::Insert,
        m.where_clause is None,
        m.order_by is None && m.limit is None && m.offset is None,
    ensures
        statement(m).0 == "INSERT INTO "@ + m.table + " ("@ + join(
            m.values.map_values(|p: (Seq<char>, SafeValue)| p.0),
            ", "@,
        ) + ") VALUES ("@ + join(assignments(m.values, m.dialect).0, ", "@) + ")"@,
        assignments(m.values, m.dialect).0.len() == m.values.len(),
        forall|i: int| 0 <= i < m.values.len() ==> #[trigger] assignments(m.values, m.dialect).0[i]
            == slot_of(m.values, m.dialect, i),
        statement(m).1 == bound_values(m.values),
{
    lemma_assignments(m.values, m.dialect);
    assert(pagination_text(m) =~= Seq::<char>::empty());
    assert(statement(m).0 =~= head_text(m).0);
}

} // verus!
