//! Validated text for the simpler statement layer: identifiers without
//! dots, rich text screened for injection phrases, and plain text.

use vstd::prelude::*;
use crate::error::CustomError;
use crate::identifier::{pattern_matches, plain_identifier_grammar, PLAIN_IDENTIFIER_PATTERN};
use crate::text::{chars_of, contains, contains_chars};
use crate::validator::{uppercase, uppercase_of};

pub use crate::predicate::Operator;
pub use crate::query::SqlOperation;

verus! {

/// Text that passed the check of its kind.
#[derive(Clone, Debug, PartialEq, Eq, Hash)]
pub enum ValidatedValue {
    Identifier(String),
    RichText(String),
    PlainText(String),
}

/// The phrases rich text may not hold once uppercased.
pub open spec fn injection_phrases() -> Seq<Seq<char>> {
    seq![
        "UNION ALL SELECT"@, "UNION SELECT"@, "OR 1=1"@, "OR '1'='1"@, "DROP TABLE"@,
        "DELETE FROM"@, "UPDATE "@, "INSERT INTO"@, "--"@, "/*"@, "*/"@, "@@"@,
    ]
}

/// Whether `upper` holds an injection phrase.
pub open spec fn has_injection_phrase(upper: Seq<char>) -> bool {
    exists|k: int| 0 <= k < injection_phrases().len() && contains(upper, #[trigger] injection_phrases()[k])
}

/// Whether plain text holds `;` or `--`.
pub open spec fn has_statement_break(text: Seq<char>) -> bool {
    contains(text, ";"@) || contains(text, "--"@)
}

fn injection_phrase(k: usize) -> (r: &'static str)
    requires
        k < 12,
    ensures
        r@ == injection_phrases()[k as int],
{
    match k {
        0 => "UNION ALL SELECT",
        1 => "UNION SELECT",
        2 => "OR 1=1",
        3 => "OR '1'='1",
        4 => "DROP TABLE",
        5 => "DELETE FROM",
        6 => "UPDATE ",
        7 => "INSERT INTO",
        8 => "--",
        9 => "/*",
        10 => "*/",
        _ => "@@",
    }
}

/// Whether already uppercased text holds an injection phrase.
pub fn contains_injection_phrase(upper: &str) -> (r: bool)
    ensures
        r == has_injection_phrase(upper@),
{
    let hay = chars_of(upper);
    let mut k: usize = 0;
    while k < 12
        invariant
            k <= 12,
            injection_phrases().len() == 12,
            hay@ == upper@,
            forall|j: int| 0 <= j < k ==> !contains(hay@, #[trigger] injection_phrases()[j]),
        decreases 12 - k,
    {
        let needle = chars_of(injection_phrase(k));
        if contains_chars(&hay, &needle) {
            return true;
        }
        k += 1;
    }
    false
}

impl ValidatedValue {
    /// A name matching `[a-zA-Z][a-zA-Z0-9_]{0,63}`; fails on anything else.
    pub fn new_identifier(value: String) -> (r: Result<ValidatedValue, CustomError>)
        ensures
            r is Ok <==> plain_identifier_grammar(value@),
            r matches Ok(v) ==> (v matches ValidatedValue::Identifier(s) && s == value),
            r matches Err(e) ==> e.spec_message() == "Invalid identifier format"@,
    {
        if !pattern_matches(PLAIN_IDENTIFIER_PATTERN, value.as_str()) {
            return Err(CustomError::from_str("Invalid identifier format"));
        }
        Ok(ValidatedValue::Identifier(value))
    }

    /// Rich text whose uppercase form holds no injection phrase; fails otherwise.
    pub fn new_rich_text(value: String) -> (r: Result<ValidatedValue, CustomError>)
        ensures
            r is Ok <==> !has_injection_phrase(uppercase_of(value@)),
            r matches Ok(v) ==> (v matches ValidatedValue::RichText(s) && s == value),
            r matches Err(e) ==> e.spec_message() == "Dangerous SQL phrase in text"@,
    {
        let upper = uppercase(value.as_str());
        if contains_injection_phrase(upper.as_str()) {
            return Err(CustomError::from_str("Dangerous SQL phrase in text"));
        }
        Ok(ValidatedValue::RichText(value))
    }

    /// Plain text without `;` or `--`; fails otherwise.
    pub fn new_plain_text(value: String) -> (r: Result<ValidatedValue, CustomError>)
        ensures
            r is Ok <==> !has_statement_break(value@),
            r matches Ok(v) ==> (v matches ValidatedValue::PlainText(s) && s == value),
            r matches Err(e) ==> e.spec_message() == "Invalid characters in text"@,
    {
        let hay = chars_of(value.as_str());
        let semi = chars_of(";");
        let dashes = chars_of("--");
        if contains_chars(&hay, &semi) || contains_chars(&hay, &dashes) {
            return Err(CustomError::from_str("Invalid characters in text"));
        }
        Ok(ValidatedValue::PlainText(value))
    }

    /// The validated text, whatever its kind.
    pub fn get(&self) -> (r: &str)
        ensures
            r@ == match self {
                ValidatedValue::Identifier(s) => s@,
                ValidatedValue::RichText(s) => s@,
                ValidatedValue::PlainText(s) => s@,
            },
    {
        match self {
            ValidatedValue::Identifier(s) => s.as_str(),
            ValidatedValue::RichText(s) => s.as_str(),
            ValidatedValue::PlainText(s) => s.as_str(),
        }
    }
}

/// A condition of the simpler layer: a plain identifier, an operator, and
/// an optional plain-text value.
#[derive(Clone, Debug)]
pub struct WhereCondition {
    field: ValidatedValue,
    operator: Operator,
    value: Option<ValidatedValue>,
}

impl WhereCondition {
    pub closed spec fn spec_field(&self) -> ValidatedValue {
        self.field
    }

    pub closed spec fn spec_operator(&self) -> Operator {
        self.operator
    }

    pub closed spec fn spec_value(&self) -> Option<ValidatedValue> {
        self.value
    }

    /// Fails when the field is not a plain identifier or the value holds
    /// `;` or `--`.
    pub fn new(field: String, operator: Operator, value: Option<String>) -> (r: Result<WhereCondition, CustomError>)
        ensures
            r is Ok <==> plain_identifier_grammar(field@) && match value {
                Some(v) => !has_statement_break(v@),
                None => true,
            },
            r matches Ok(c) ==> c.spec_field() == ValidatedValue::Identifier(field)
                && c.spec_operator() == operator && match value {
                Some(v) => c.spec_value() == Some(ValidatedValue::PlainText(v)),
                None => c.spec_value() is None,
            },
    {
        let f = ValidatedValue::new_identifier(field)?;
        let v = match value {
            Some(v) => Some(ValidatedValue::new_plain_text(v)?),
            None => None,
        };
        Ok(WhereCondition { field: f, operator, value: v })
    }
}

} // verus!
