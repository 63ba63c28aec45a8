//! Validated names for tables, columns and indexes: the only way a name
//! reaches SQL text, since names cannot be bound as parameters.

use vstd::prelude::*;
use crate::error::SqlError;

verus! {

/// An ASCII letter.
pub open spec fn is_ascii_letter(c: char) -> bool {
    ('a' <= c && c <= 'z') || ('A' <= c && c <= 'Z')
}

/// A character that may follow the first one of an identifier.
pub open spec fn is_identifier_tail(c: char) -> bool {
    is_ascii_letter(c) || ('0' <= c && c <= '9') || c == '_' || c == '.'
}

/// The identifier grammar `[a-zA-Z][a-zA-Z0-9_.]{0,63}`.
pub open spec fn identifier_grammar(s: Seq<char>) -> bool {
    &&& 1 <= s.len() <= 64
    &&& is_ascii_letter(s[0])
    &&& forall|i: int| 1 <= i < s.len() ==> is_identifier_tail(#[trigger] s[i])
}

/// The stricter grammar `[a-zA-Z][a-zA-Z0-9_]{0,63}`, without `.`.
pub open spec fn plain_identifier_grammar(s: Seq<char>) -> bool {
    identifier_grammar(s) && forall|i: int| 0 <= i < s.len() ==> #[trigger] s[i] != '.'
}

/// The grammar as a regular expression, anchored at both ends.
pub const IDENTIFIER_PATTERN: &'static str = "^[a-zA-Z][a-zA-Z0-9_.]{0,63}$";

/// The stricter grammar as a regular expression, anchored at both ends.
pub const PLAIN_IDENTIFIER_PATTERN: &'static str = "^[a-zA-Z][a-zA-Z0-9_]{0,63}$";

/// An ASCII letter or digit.
pub open spec fn is_ascii_alnum(c: char) -> bool {
    is_ascii_letter(c) || ('0' <= c && c <= '9')
}

/// A character of the local part or the domain of an address: `[a-zA-Z0-9._-]`.
pub open spec fn is_address_char(c: char) -> bool {
    is_ascii_alnum(c) || c == '.' || c == '_' || c == '-'
}

/// A character of the suffix that follows the chosen dot: `[a-zA-Z0-9_-]`.
pub open spec fn is_suffix_char(c: char) -> bool {
    is_ascii_alnum(c) || c == '_' || c == '-'
}

/// Whether `s[a..e]` is `local@domain.suffix` with its `@` at `at`, a dot at
/// `dot` separating domain and suffix (the domain may hold further dots), and
/// each part non-empty.
pub open spec fn email_at(s: Seq<char>, a: int, at: int, dot: int, e: int) -> bool {
    &&& 0 <= a < at && at + 1 < dot && dot + 1 < e && e <= s.len()
    &&& s[at] == '@' && s[dot] == '.'
    &&& forall|i: int| a <= i < at ==> is_address_char(#[trigger] s[i])
    &&& forall|i: int| at < i < dot ==> is_address_char(#[trigger] s[i])
    &&& forall|i: int| dot < i < e ==> is_suffix_char(#[trigger] s[i])
}

/// Whether `s` holds, somewhere, `local@domain.suffix` with each part non-empty.
pub open spec fn contains_email(s: Seq<char>) -> bool {
    exists|a: int, at: int, dot: int, e: int| #[trigger] email_at(s, a, at, dot, e)
}

/// The e-mail shape as an unanchored regular expression.
pub const EMAIL_PATTERN: &'static str = "([a-zA-Z0-9._-]+@[a-zA-Z0-9._-]+\\.[a-zA-Z0-9_-]+)";

/// Relies on `regex::Regex::new` and `Regex::is_match`: each of these
/// patterns compiles; an anchored identifier pattern accepts exactly the
/// strings of its grammar (character classes of ASCII ranges, `.` literal
/// inside a class), and the unanchored e-mail pattern matches exactly the
/// strings that hold a substring of its shape.
#[verifier::external_body]
pub(crate) fn pattern_matches(pattern: &str, s: &str) -> (r: bool)
    requires
        pattern@ == IDENTIFIER_PATTERN@ || pattern@ == PLAIN_IDENTIFIER_PATTERN@
            || pattern@ == EMAIL_PATTERN@,
    ensures
        pattern@ == IDENTIFIER_PATTERN@ ==> r == identifier_grammar(s@),
        pattern@ == PLAIN_IDENTIFIER_PATTERN@ ==> r == plain_identifier_grammar(s@),
        pattern@ == EMAIL_PATTERN@ ==> r == contains_email(s@),
{
    match regex::Regex::new(pattern) {
        Ok(re) => re.is_match(s),
        Err(_) => false,
    }
}

/// The names of `ids`, in order.
pub(crate) fn names_of(ids: &Vec<Identifier>) -> (r: Vec<String>)
    ensures
        r@.map_values(|s: String| s@) == ids@.map_values(|f: Identifier| f@),
{
    let mut r: Vec<String> = Vec::new();
    let mut i: usize = 0;
    while i < ids.len()
        invariant
            i <= ids@.len(),
            r@.map_values(|s: String| s@) == ids@.take(i as int).map_values(|f: Identifier| f@),
        decreases ids@.len() - i,
    {
        r.push(ids[i].as_str().to_owned());
        assert(ids@.take(i + 1).map_values(|f: Identifier| f@) =~= ids@.take(i as int).map_values(
            |f: Identifier| f@,
        ).push(ids@[i as int]@));
        assert(r@.map_values(|s: String| s@) =~= ids@.take(i + 1).map_values(|f: Identifier| f@));
        i += 1;
    }
    assert(ids@.take(ids@.len() as int) =~= ids@);
    r
}

/// A name that matches the identifier grammar.
#[derive(Debug, PartialEq, Eq, Hash)]
pub struct Identifier {
    value: String,
}

impl View for Identifier {
    type V = Seq<char>;

    closed spec fn view(&self) -> Seq<char> {
        self.value@
    }
}

impl Clone for Identifier {
    fn clone(&self) -> (r: Identifier)
        ensures
            r == *self,
    {
        proof {
            use_type_invariant(self);
        }
        Identifier { value: self.value.clone() }
    }
}

impl Identifier {
    #[verifier::type_invariant]
    spec fn inv(&self) -> bool {
        identifier_grammar(self.value@)
    }

    /// `value` as an identifier, or `InvalidIdentifier` when it is outside the grammar.
    pub fn new(value: String) -> (r: Result<Identifier, SqlError>)
        ensures
            match r {
                Ok(id) => identifier_grammar(value@) && id@ == value@,
                Err(e) => !identifier_grammar(value@) && e == SqlError::InvalidIdentifier(value),
            },
    {
        if !pattern_matches(IDENTIFIER_PATTERN, value.as_str()) {
            return Err(SqlError::InvalidIdentifier(value));
        }
        Ok(Identifier { value })
    }

    /// Whether two identifiers spell the same name.
    pub fn same_name(&self, other: &Identifier) -> (r: bool)
        ensures
            r == (self@ == other@),
    {
        self.value == other.value
    }

    /// The validated name.
    pub fn as_str(&self) -> (r: &str)
        ensures
            r@ == self@,
    {
        self.value.as_str()
    }
}

} // verus!
