//! Validation of text input by strictness level.

use vstd::prelude::*;
use vstd::utf8::{encode_utf8, is_ascii_chars, is_ascii_chars_encode_utf8};
use crate::error::{SqlError, ValidationFailure};
use crate::identifier::is_ascii_alnum;
use crate::text::{chars_of, contains, contains_chars, occurs_at};

verus! {

broadcast use vstd::string::group_string_axioms;

/// How strictly a text value is checked.
#[derive(Clone, Copy, Debug, PartialEq, Eq, Hash, Structural)]
pub enum ValidationLevel {
    /// Identifier-like text: alphanumerics and `_`, at most 100 bytes.
    Strict,
    /// Short text with a little punctuation, at most 1000 bytes.
    Standard,
    /// Long free text, at most 100000 bytes, scanned against a denylist.
    Relaxed,
    /// Not checked at all.
    Raw,
}

/// What `char::is_alphanumeric` returns for `c`.
pub uninterp spec fn is_alphanumeric(c: char) -> bool;

/// What `str::to_uppercase` returns for `s`.
pub uninterp spec fn uppercase_of(s: Seq<char>) -> Seq<char>;

/// Relies on `char::is_alphanumeric`: whether `c` is Unicode alphabetic or numeric.
#[verifier::external_body]
fn alphanumeric(c: char) -> (r: bool)
    ensures
        r == is_alphanumeric(c),
{
    c.is_alphanumeric()
}

/// The ASCII uppercase of a character: `a`-`z` become `A`-`Z`, the rest stay.
pub open spec fn ascii_upper_char(c: char) -> char {
    if 'a' <= c && c <= 'z' {
        ((c as u8) - 32u8) as char
    } else {
        c
    }
}

/// The ASCII uppercase of a sequence, character by character.
pub open spec fn ascii_upper(s: Seq<char>) -> Seq<char> {
    Seq::new(s.len(), |i: int| ascii_upper_char(s[i]))
}

/// Relies on `str::to_uppercase`: the uppercase form, a function of the
/// characters alone; on ASCII text it is the ASCII uppercase.
#[verifier::external_body]
pub(crate) fn uppercase(s: &str) -> (r: String)
    ensures
        r@ == uppercase_of(s@),
        is_ascii_chars(s@) ==> r@ == ascii_upper(s@),
{
    s.to_uppercase()
}

/// Relies on `String::push`: appends one character.
#[verifier::external_body]
pub(crate) fn push_char(s: &mut String, c: char)
    ensures
        final(s)@ == old(s)@.push(c),
{
    s.push(c)
}

/// The largest byte length a level admits; Raw has no limit.
pub open spec fn max_len(level: ValidationLevel) -> Option<nat> {
    match level {
        ValidationLevel::Strict => Some(100),
        ValidationLevel::Standard => Some(1000),
        ValidationLevel::Relaxed => Some(100000),
        ValidationLevel::Raw => None,
    }
}

/// NUL, CR, LF and TAB.
pub open spec fn is_control(c: char) -> bool {
    c == '\0' || c == '\n' || c == '\r' || c == '\t'
}

/// The punctuation a level admits besides alphanumerics.
pub open spec fn punct_allowed(level: ValidationLevel, c: char) -> bool {
    match level {
        ValidationLevel::Strict => c == '_',
        ValidationLevel::Standard => c == '_' || c == '-' || c == '.' || c == ',' || c == '!'
            || c == '?' || c == ':' || c == ' ',
        _ => true,
    }
}

/// Whether a character may stand in text of a level: alphanumeric (ASCII
/// letters and digits among them) or punctuation the level admits.
pub open spec fn char_allowed(level: ValidationLevel, c: char) -> bool {
    is_ascii_alnum(c) || is_alphanumeric(c) || punct_allowed(level, c)
}

/// The SQL keywords and comment markers that Relaxed text may not hold.
pub open spec fn denylist() -> Seq<Seq<char>> {
    seq![
        "DROP"@, "TRUNCATE"@, "ALTER"@, "DELETE"@, "UPDATE"@, "INSERT"@, "MERGE"@,
        "GRANT"@, "REVOKE"@, "UNION"@, "--"@, "/*"@, "EXEC"@, "EXECUTE"@, "WAITFOR"@,
        "DELAY"@, "BENCHMARK"@,
    ]
}

/// Whether `upper` holds some denylisted pattern.
pub open spec fn has_sql_pattern(upper: Seq<char>) -> bool {
    exists|k: int| 0 <= k < denylist().len() && contains(upper, #[trigger] denylist()[k])
}

/// Whether some character of `text` is disallowed at `level`.
pub open spec fn has_disallowed_char(text: Seq<char>, level: ValidationLevel) -> bool {
    exists|i: int| 0 <= i < text.len() && !char_allowed(level, #[trigger] text[i])
}

/// Whether `text` holds a control character.
pub open spec fn has_control_char(text: Seq<char>) -> bool {
    exists|i: int| 0 <= i < text.len() && is_control(#[trigger] text[i])
}

/// Why `text` fails `level`, checked in this order: length, denylist (Relaxed
/// only), character allow-list (Strict and Standard), control characters.
/// `None` when it passes; Raw always passes.
pub open spec fn text_failure(text: Seq<char>, level: ValidationLevel) -> Option<ValidationFailure> {
    if level == ValidationLevel::Raw {
        None
    } else if encode_utf8(text).len() > max_len(level).unwrap() {
        Some(ValidationFailure::TooLong)
    } else if level == ValidationLevel::Relaxed && has_sql_pattern(uppercase_of(text)) {
        Some(ValidationFailure::SqlPattern)
    } else if level != ValidationLevel::Relaxed && has_disallowed_char(text, level) {
        Some(ValidationFailure::InvalidChar)
    } else if has_control_char(text) {
        Some(ValidationFailure::ControlChar)
    } else {
        None
    }
}

/// Whether `text` passes `level`.
pub open spec fn text_valid(text: Seq<char>, level: ValidationLevel) -> bool {
    text_failure(text, level) is None
}

/// What `validate` returns for `text` at `level`.
pub open spec fn validation_result(text: Seq<char>, level: ValidationLevel, r: Result<(), SqlError>) -> bool {
    match text_failure(text, level) {
        None => r is Ok,
        Some(f) => match r {
            Err(SqlError::Validation(g, t, l)) => g == f && t@ == text && l == level,
            _ => false,
        },
    }
}

/// `text` with each `'` doubled and each `\` doubled.
pub open spec fn escaped(text: Seq<char>) -> Seq<char>
    decreases text.len(),
{
    if text.len() == 0 {
        Seq::empty()
    } else {
        let c = text.last();
        let tail = if c == '\'' {
            seq!['\'', '\'']
        } else if c == '\\' {
            seq!['\\', '\\']
        } else {
            seq![c]
        };
        escaped(text.drop_last()) + tail
    }
}

fn sql_pattern(k: usize) -> (r: &'static str)
    requires
        k < 17,
    ensures
        r@ == denylist()[k as int],
{
    match k {
        0 => "DROP",
        1 => "TRUNCATE",
        2 => "ALTER",
        3 => "DELETE",
        4 => "UPDATE",
        5 => "INSERT",
        6 => "MERGE",
        7 => "GRANT",
        8 => "REVOKE",
        9 => "UNION",
        10 => "--",
        11 => "/*",
        12 => "EXEC",
        13 => "EXECUTE",
        14 => "WAITFOR",
        15 => "DELAY",
        _ => "BENCHMARK",
    }
}

fn control_char(c: char) -> (r: bool)
    ensures
        r == is_control(c),
{
    c == '\0' || c == '\n' || c == '\r' || c == '\t'
}

fn punct_ok(level: ValidationLevel, c: char) -> (r: bool)
    ensures
        r == punct_allowed(level, c),
{
    match level {
        ValidationLevel::Strict => c == '_',
        ValidationLevel::Standard => c == '_' || c == '-' || c == '.' || c == ',' || c == '!'
            || c == '?' || c == ':' || c == ' ',
        _ => true,
    }
}

fn max_length(level: ValidationLevel) -> (r: usize)
    requires
        level != ValidationLevel::Raw,
    ensures
        max_len(level) == Some(r as nat),
{
    match level {
        ValidationLevel::Strict => 100,
        ValidationLevel::Standard => 1000,
        _ => 100000,
    }
}

/// Whether already uppercased text holds a denylisted pattern.
pub fn contains_sql_pattern(upper: &str) -> (r: bool)
    ensures
        r == has_sql_pattern(upper@),
{
    let hay = chars_of(upper);
    let mut k: usize = 0;
    while k < 17
        invariant
            k <= 17,
            denylist().len() == 17,
            hay@ == upper@,
            forall|j: int| 0 <= j < k ==> !contains(hay@, #[trigger] denylist()[j]),
        decreases 17 - k,
    {
        let needle = chars_of(sql_pattern(k));
        if contains_chars(&hay, &needle) {
            return true;
        }
        k += 1;
    }
    false
}

/// Why text may not be written into DDL (a CHECK or DEFAULT literal),
/// whatever its level: a denylisted pattern in its uppercase form, or a
/// control character. `None` when it may.
pub open spec fn ddl_failure(text: Seq<char>) -> Option<ValidationFailure> {
    if has_sql_pattern(uppercase_of(text)) {
        Some(ValidationFailure::SqlPattern)
    } else if has_control_char(text) {
        Some(ValidationFailure::ControlChar)
    } else {
        None
    }
}

/// Checks text against the rules of a validation level.
#[derive(Clone, Copy, Debug)]
pub struct TextValidator {}

impl Default for TextValidator {
    fn default() -> (r: TextValidator) {
        TextValidator {}
    }
}

impl TextValidator {
    /// A validator with the fixed rules of each level.
    pub fn new() -> (r: TextValidator) {
        TextValidator {}
    }

    fn scan_sql_patterns(&self, text: &str) -> (r: bool)
        ensures
            r == has_sql_pattern(uppercase_of(text@)),
            is_ascii_chars(text@) ==> uppercase_of(text@) == ascii_upper(text@),
    {
        let upper = uppercase(text);
        contains_sql_pattern(upper.as_str())
    }

    fn scan_chars(&self, text: &Vec<char>, level: ValidationLevel) -> (r: bool)
        ensures
            r == has_disallowed_char(text@, level),
    {
        let mut i: usize = 0;
        while i < text.len()
            invariant
                i <= text@.len(),
                forall|j: int| 0 <= j < i ==> char_allowed(level, #[trigger] text@[j]),
            decreases text@.len() - i,
        {
            let c = text[i];
            let ascii_alnum = ('a' <= c && c <= 'z') || ('A' <= c && c <= 'Z') || ('0' <= c && c <= '9');
            if !ascii_alnum && !alphanumeric(c) && !punct_ok(level, c) {
                return true;
            }
            i += 1;
        }
        false
    }

    fn scan_control_chars(&self, text: &Vec<char>) -> (r: bool)
        ensures
            r == has_control_char(text@),
    {
        let mut i: usize = 0;
        while i < text.len()
            invariant
                i <= text@.len(),
                forall|j: int| 0 <= j < i ==> !is_control(#[trigger] text@[j]),
            decreases text@.len() - i,
        {
            if control_char(text[i]) {
                return true;
            }
            i += 1;
        }
        false
    }

    /// Checks `text` against `level`; the error names the first rule broken.
    pub fn validate(&self, text: &str, level: ValidationLevel) -> (r: Result<(), SqlError>)
        ensures
            validation_result(text@, level, r),
    {
        if level == ValidationLevel::Raw {
            return Ok(());
        }
        let n = text.as_bytes().len();
        let fail = if n > max_length(level) {
            Some(ValidationFailure::TooLong)
        } else if level == ValidationLevel::Relaxed && self.scan_sql_patterns(text) {
            Some(ValidationFailure::SqlPattern)
        } else {
            let chars = chars_of(text);
            if level != ValidationLevel::Relaxed && self.scan_chars(&chars, level) {
                Some(ValidationFailure::InvalidChar)
            } else if self.scan_control_chars(&chars) {
                Some(ValidationFailure::ControlChar)
            } else {
                None
            }
        };
        match fail {
            Some(f) => Err(SqlError::Validation(f, text.to_owned(), level)),
            None => Ok(()),
        }
    }

    /// Checks text bound for a DDL literal: fails, under the Relaxed level
    /// whose rules it applies, on a denylisted pattern or a control character.
    pub fn check_ddl_text(&self, text: &str) -> (r: Result<(), SqlError>)
        ensures
            is_ascii_chars(text@) ==> uppercase_of(text@) == ascii_upper(text@),
            match ddl_failure(text@) {
                None => r is Ok,
                Some(f) => r matches Err(SqlError::Validation(g, t, l)) && g == f && t@ == text@
                    && l == ValidationLevel::Relaxed,
            },
    {
        if self.scan_sql_patterns(text) {
            return Err(SqlError::Validation(ValidationFailure::SqlPattern, text.to_owned(), ValidationLevel::Relaxed));
        }
        let chars = chars_of(text);
        if self.scan_control_chars(&chars) {
            return Err(SqlError::Validation(ValidationFailure::ControlChar, text.to_owned(), ValidationLevel::Relaxed));
        }
        Ok(())
    }

    /// Checks `text` at the Relaxed level.
    pub fn validate_relaxed(&self, text: &str) -> (r: Result<(), SqlError>)
        ensures
            validation_result(text@, ValidationLevel::Relaxed, r),
    {
        self.validate(text, ValidationLevel::Relaxed)
    }

    /// Checks `text` at the Standard level.
    pub fn validate_standard(&self, text: &str) -> (r: Result<(), SqlError>)
        ensures
            validation_result(text@, ValidationLevel::Standard, r),
    {
        self.validate(text, ValidationLevel::Standard)
    }

    /// Checks `text` at the Strict level.
    pub fn validate_strict(&self, text: &str) -> (r: Result<(), SqlError>)
        ensures
            validation_result(text@, ValidationLevel::Strict, r),
    {
        self.validate(text, ValidationLevel::Strict)
    }

    /// Checks `text` at the Raw level, which admits everything.
    pub fn validate_raw(&self, text: &str) -> (r: Result<(), SqlError>)
        ensures
            r is Ok,
    {
        self.validate(text, ValidationLevel::Raw)
    }

    /// Checks `text` at the Relaxed level, then doubles each `'` and `\` in it.
    pub fn sanitize(&self, text: &str) -> (r: Result<String, SqlError>)
        ensures
            match r {
                Ok(s) => text_valid(text@, ValidationLevel::Relaxed) && s@ == escaped(text@),
                Err(e) => validation_result(text@, ValidationLevel::Relaxed, Err(e)),
            },
    {
        match self.validate_relaxed(text) {
            Err(e) => {
                return Err(e);
            },
            Ok(()) => {},
        }
        let chars = chars_of(text);
        let mut out = String::new();
        let mut i: usize = 0;
        while i < chars.len()
            invariant
                i <= chars@.len(),
                out@ == escaped(chars@.take(i as int)),
            decreases chars@.len() - i,
        {
            let c = chars[i];
            if c == '\'' {
                push_char(&mut out, '\'');
                push_char(&mut out, '\'');
            } else if c == '\\' {
                push_char(&mut out, '\\');
                push_char(&mut out, '\\');
            } else {
                push_char(&mut out, c);
            }
            proof {
                assert(chars@.take(i + 1).drop_last() =~= chars@.take(i as int));
                assert(out@ =~= escaped(chars@.take(i + 1)));
            }
            i += 1;
        }
        assert(chars@.take(chars@.len() as int) =~= chars@);
        Ok(out)
    }
}

/// Text of ASCII letters, digits and `_`, at most 100 characters long,
/// passes the Strict level.
pub proof fn lemma_strict_word(text: Seq<char>)
    requires
        text.len() <= 100,
        forall|i: int| 0 <= i < text.len() ==> is_ascii_alnum(#[trigger] text[i]) || text[i] == '_',
    ensures
        text_valid(text, ValidationLevel::Strict),
{
    assert(is_ascii_chars(text));
    is_ascii_chars_encode_utf8(text);
    assert(!has_disallowed_char(text, ValidationLevel::Strict));
    assert(!has_control_char(text));
}

/// `needle` does not occur in `hay` when no three neighbouring characters of
/// `hay` spell its first three.
pub proof fn lemma_absent_by_three(hay: Seq<char>, needle: Seq<char>)
    requires
        needle.len() >= 3,
        forall|i: int|
            0 <= i < hay.len() - 2 ==> !(#[trigger] hay[i] == needle[0] && hay[i + 1] == needle[1]
                && hay[i + 2] == needle[2]),
    ensures
        !contains(hay, needle),
{
    assert forall|i: int| !occurs_at(hay, needle, i) by {
        if occurs_at(hay, needle, i) {
            let sub = hay.subrange(i, i + needle.len());
            assert(sub[0] == needle[0] && sub[1] == needle[1] && sub[2] == needle[2]);
        }
    }
}

/// `needle` does not occur in `hay` when no two neighbouring characters of
/// `hay` spell its first two.
pub proof fn lemma_absent_by_two(hay: Seq<char>, needle: Seq<char>)
    requires
        needle.len() >= 2,
        forall|i: int| 0 <= i < hay.len() - 1 ==> !(#[trigger] hay[i] == needle[0] && hay[i + 1] == needle[1]),
    ensures
        !contains(hay, needle),
{
    assert forall|i: int| !occurs_at(hay, needle, i) by {
        if occurs_at(hay, needle, i) {
            let sub = hay.subrange(i, i + needle.len());
            assert(sub[0] == needle[0] && sub[1] == needle[1]);
        }
    }
}

/// The first characters of each denylisted pattern: three, or both of a
/// two-character comment marker.
pub open spec fn pattern_head(k: int) -> Seq<char> {
    if k == 0 {
        seq!['D', 'R', 'O']
    } else if k == 1 {
        seq!['T', 'R', 'U']
    } else if k == 2 {
        seq!['A', 'L', 'T']
    } else if k == 3 {
        seq!['D', 'E', 'L']
    } else if k == 4 {
        seq!['U', 'P', 'D']
    } else if k == 5 {
        seq!['I', 'N', 'S']
    } else if k == 6 {
        seq!['M', 'E', 'R']
    } else if k == 7 {
        seq!['G', 'R', 'A']
    } else if k == 8 {
        seq!['R', 'E', 'V']
    } else if k == 9 {
        seq!['U', 'N', 'I']
    } else if k == 10 {
        seq!['-', '-']
    } else if k == 11 {
        seq!['/', '*']
    } else if k == 12 {
        seq!['E', 'X', 'E']
    } else if k == 13 {
        seq!['E', 'X', 'E']
    } else if k == 14 {
        seq!['W', 'A', 'I']
    } else if k == 15 {
        seq!['D', 'E', 'L']
    } else {
        seq!['B', 'E', 'N']
    }
}

/// Whether `t` spells the head of pattern `k` at position `i`.
pub open spec fn head_at(t: Seq<char>, k: int, i: int) -> bool {
    let h = pattern_head(k);
    if h.len() == 2 {
        0 <= i && i + 1 < t.len() && t[i] == h[0] && t[i + 1] == h[1]
    } else {
        0 <= i && i + 2 < t.len() && t[i] == h[0] && t[i + 1] == h[1] && t[i + 2] == h[2]
    }
}

/// Text in which no denylisted pattern's head occurs holds no denylisted pattern.
pub proof fn lemma_free_of_sql_patterns(t: Seq<char>)
    requires
        forall|k: int, i: int| 0 <= k < 17 ==> !#[trigger] head_at(t, k, i),
    ensures
        !has_sql_pattern(t),
{
    reveal_strlit("DROP");
    reveal_strlit("TRUNCATE");
    reveal_strlit("ALTER");
    reveal_strlit("DELETE");
    reveal_strlit("UPDATE");
    reveal_strlit("INSERT");
    reveal_strlit("MERGE");
    reveal_strlit("GRANT");
    reveal_strlit("REVOKE");
    reveal_strlit("UNION");
    reveal_strlit("--");
    reveal_strlit("/*");
    reveal_strlit("EXEC");
    reveal_strlit("EXECUTE");
    reveal_strlit("WAITFOR");
    reveal_strlit("DELAY");
    reveal_strlit("BENCHMARK");
    assert forall|i: int| 0 <= i < t.len() - 2 implies !(#[trigger] t[i] == denylist()[0][0] && t[i + 1] == denylist()[0][1] && t[i + 2] == denylist()[0][2]) by {
        assert(!head_at(t, 0, i));
    }
    lemma_absent_by_three(t, denylist()[0]);
    assert forall|i: int| 0 <= i < t.len() - 2 implies !(#[trigger] t[i] == denylist()[1][0] && t[i + 1] == denylist()[1][1] && t[i + 2] == denylist()[1][2]) by {
        assert(!head_at(t, 1, i));
    }
    lemma_absent_by_three(t, denylist()[1]);
    assert forall|i: int| 0 <= i < t.len() - 2 implies !(#[trigger] t[i] == denylist()[2][0] && t[i + 1] == denylist()[2][1] && t[i + 2] == denylist()[2][2]) by {
        assert(!head_at(t, 2, i));
    }
    lemma_absent_by_three(t, denylist()[2]);
    assert forall|i: int| 0 <= i < t.len() - 2 implies !(#[trigger] t[i] == denylist()[3][0] && t[i + 1] == denylist()[3][1] && t[i + 2] == denylist()[3][2]) by {
        assert(!head_at(t, 3, i));
    }
    lemma_absent_by_three(t, denylist()[3]);
    assert forall|i: int| 0 <= i < t.len() - 2 implies !(#[trigger] t[i] == denylist()[4][0] && t[i + 1] == denylist()[4][1] && t[i + 2] == denylist()[4][2]) by {
        assert(!head_at(t, 4, i));
    }
    lemma_absent_by_three(t, denylist()[4]);
    assert forall|i: int| 0 <= i < t.len() - 2 implies !(#[trigger] t[i] == denylist()[5][0] && t[i + 1] == denylist()[5][1] && t[i + 2] == denylist()[5][2]) by {
        assert(!head_at(t, 5, i));
    }
    lemma_absent_by_three(t, denylist()[5]);
    assert forall|i: int| 0 <= i < t.len() - 2 implies !(#[trigger] t[i] == denylist()[6][0] && t[i + 1] == denylist()[6][1] && t[i + 2] == denylist()[6][2]) by {
        assert(!head_at(t, 6, i));
    }
    lemma_absent_by_three(t, denylist()[6]);
    assert forall|i: int| 0 <= i < t.len() - 2 implies !(#[trigger] t[i] == denylist()[7][0] && t[i + 1] == denylist()[7][1] && t[i + 2] == denylist()[7][2]) by {
        assert(!head_at(t, 7, i));
    }
    lemma_absent_by_three(t, denylist()[7]);
    assert forall|i: int| 0 <= i < t.len() - 2 implies !(#[trigger] t[i] == denylist()[8][0] && t[i + 1] == denylist()[8][1] && t[i + 2] == denylist()[8][2]) by {
        assert(!head_at(t, 8, i));
    }
    lemma_absent_by_three(t, denylist()[8]);
    assert forall|i: int| 0 <= i < t.len() - 2 implies !(#[trigger] t[i] == denylist()[9][0] && t[i + 1] == denylist()[9][1] && t[i + 2] == denylist()[9][2]) by {
        assert(!head_at(t, 9, i));
    }
    lemma_absent_by_three(t, denylist()[9]);
    assert forall|i: int| 0 <= i < t.len() - 1 implies !(#[trigger] t[i] == denylist()[10][0] && t[i + 1] == denylist()[10][1]) by {
        assert(!head_at(t, 10, i));
    }
    lemma_absent_by_two(t, denylist()[10]);
    assert forall|i: int| 0 <= i < t.len() - 1 implies !(#[trigger] t[i] == denylist()[11][0] && t[i + 1] == denylist()[11][1]) by {
        assert(!head_at(t, 11, i));
    }
    lemma_absent_by_two(t, denylist()[11]);
    assert forall|i: int| 0 <= i < t.len() - 2 implies !(#[trigger] t[i] == denylist()[12][0] && t[i + 1] == denylist()[12][1] && t[i + 2] == denylist()[12][2]) by {
        assert(!head_at(t, 12, i));
    }
    lemma_absent_by_three(t, denylist()[12]);
    assert forall|i: int| 0 <= i < t.len() - 2 implies !(#[trigger] t[i] == denylist()[13][0] && t[i + 1] == denylist()[13][1] && t[i + 2] == denylist()[13][2]) by {
        assert(!head_at(t, 13, i));
    }
    lemma_absent_by_three(t, denylist()[13]);
    assert forall|i: int| 0 <= i < t.len() - 2 implies !(#[trigger] t[i] == denylist()[14][0] && t[i + 1] == denylist()[14][1] && t[i + 2] == denylist()[14][2]) by {
        assert(!head_at(t, 14, i));
    }
    lemma_absent_by_three(t, denylist()[14]);
    assert forall|i: int| 0 <= i < t.len() - 2 implies !(#[trigger] t[i] == denylist()[15][0] && t[i + 1] == denylist()[15][1] && t[i + 2] == denylist()[15][2]) by {
        assert(!head_at(t, 15, i));
    }
    lemma_absent_by_three(t, denylist()[15]);
    assert forall|i: int| 0 <= i < t.len() - 2 implies !(#[trigger] t[i] == denylist()[16][0] && t[i + 1] == denylist()[16][1] && t[i + 2] == denylist()[16][2]) by {
        assert(!head_at(t, 16, i));
    }
    lemma_absent_by_three(t, denylist()[16]);
}

/// Of Relaxed text free of control characters: validation fails exactly when
/// the text is longer than 100000 bytes or its uppercase form holds a
/// denylisted keyword.
pub proof fn relaxed_denylist_law(text: Seq<char>)
    requires
        !has_control_char(text),
    ensures
        text_valid(text, ValidationLevel::Relaxed) <==> (encode_utf8(text).len() <= 100000
            && !has_sql_pattern(uppercase_of(text))),
        has_sql_pattern(uppercase_of(text)) ==> !text_valid(text, ValidationLevel::Relaxed),
{
}

} // verus!
