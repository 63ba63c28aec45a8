//! The library's errors, kept as a closed taxonomy so that a caller can tell
//! a client input problem from a structural one.

use vstd::prelude::*;
use crate::validator::ValidationLevel;

verus! {

/// Why a text value failed its validation level.
#[derive(Clone, Copy, Debug, PartialEq, Eq, Structural)]
pub enum ValidationFailure {
    /// Longer, in bytes, than the level allows.
    TooLong,
    /// Holds a character that is neither alphanumeric nor allowed by the level.
    InvalidChar,
    /// Its uppercased form holds a denylisted SQL keyword or comment marker.
    SqlPattern,
    /// Holds NUL, CR, LF or TAB.
    ControlChar,
}

/// An error raised while validating input or building SQL.
#[derive(Clone, Debug, PartialEq, Eq)]
pub enum SqlError {
    /// A text value failed its level; carries the text and the level.
    Validation(ValidationFailure, String, ValidationLevel),
    /// A table, column or index name outside the identifier grammar.
    InvalidIdentifier(String),
    /// An operator that needs a value was given none; carries the field.
    MissingValue(String),
    /// `IS NULL` / `IS NOT NULL` was given a value; carries the field.
    UnexpectedValue(String),
    /// An operator that a CHECK constraint cannot express; carries the field.
    UnsupportedCheckOperator(String),
    /// An `IN` inside a CHECK constraint whose value is not a text list.
    InvalidInValue(String),
    /// A timestamp outside the range that can be rendered.
    InvalidTimestamp,
    /// An e-mail address without the shape `local@domain.suffix`.
    InvalidEmail(String),
    /// The password could not be hashed; carries the reason.
    PasswordHash(String),
}

/// A plain error message.
#[derive(Clone, Debug, PartialEq, Eq)]
pub struct CustomError {
    message: String,
}

impl CustomError {
    pub closed spec fn spec_message(&self) -> Seq<char> {
        self.message@
    }

    /// An error that carries `error` as its message.
    pub fn from_str(error: &str) -> (r: CustomError)
        ensures
            r.spec_message() == error@,
    {
        CustomError { message: String::from_str(error) }
    }

    /// The message.
    pub fn message(&self) -> (r: &str)
        ensures
            r@ == self.spec_message(),
    {
        self.message.as_str()
    }
}

/// Turns a message into a `CustomError`.
pub trait CustomErrorInto {
    fn into_custom_error(self) -> CustomError;
}

impl CustomErrorInto for &str {
    fn into_custom_error(self) -> (r: CustomError) {
        CustomError::from_str(self)
    }
}

} // verus!
