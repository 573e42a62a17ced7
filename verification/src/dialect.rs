//! The SQL dialect: identifiers may hold the characters of a path or a URL,
//! so that a source can stand unquoted in a `FROM` clause.

use vstd::prelude::*;
use vstd::string::StringExecFns;

verus! {

/// Whether `ch` may begin an unquoted identifier: an ASCII letter or `_`.
pub open spec fn identifier_start(ch: char) -> bool {
    ('a' <= ch && ch <= 'z') || ('A' <= ch && ch <= 'Z') || ch == '_'
}

/// Whether `ch` may stand inside an unquoted identifier: an ASCII letter or
/// digit, or one of `: / ? & = - _ .`.
pub open spec fn identifier_part(ch: char) -> bool {
    ('a' <= ch && ch <= 'z') || ('A' <= ch && ch <= 'Z') || ('0' <= ch && ch <= '9') || ch == ':'
        || ch == '/' || ch == '?' || ch == '&' || ch == '=' || ch == '-' || ch == '_' || ch == '.'
}

/// The statement that [`example_sql`] returns.
pub open spec fn example_text() -> Seq<char> {
    "SELECT location name, total_cases, new_cases, total_deaths, new_deaths \
FROM https://raw.githubusercontent.com/owid/covid-19-data/master/public/data/latest/owid-covid-latest.csv \
where new_deaths >= 500 ORDER BY new_cases DESC LIMIT 6 OFFSET 5"@
}

/// A statement of the accepted shape, as an example.
pub fn example_sql() -> (r: String)
    ensures
        r@ == example_text(),
{
    String::from_str(
        "SELECT location name, total_cases, new_cases, total_deaths, new_deaths \
FROM https://raw.githubusercontent.com/owid/covid-19-data/master/public/data/latest/owid-covid-latest.csv \
where new_deaths >= 500 ORDER BY new_cases DESC LIMIT 6 OFFSET 5",
    )
}

/// The dialect of this library.
#[derive(Debug, Default)]
pub struct CalDialect;

impl CalDialect {
    /// Decides whether `ch` may begin an unquoted identifier.
    pub fn starts_identifier(ch: char) -> (r: bool)
        ensures
            r == identifier_start(ch),
    {
        ('a' <= ch && ch <= 'z') || ('A' <= ch && ch <= 'Z') || ch == '_'
    }

    /// Decides whether `ch` may stand inside an unquoted identifier.
    pub fn continues_identifier(ch: char) -> (r: bool)
        ensures
            r == identifier_part(ch),
    {
        ('a' <= ch && ch <= 'z') || ('A' <= ch && ch <= 'Z') || ('0' <= ch && ch <= '9')
            || ch == ':' || ch == '/' || ch == '?' || ch == '&' || ch == '=' || ch == '-'
            || ch == '_' || ch == '.'
    }
}

impl sqlparser::dialect::Dialect for CalDialect {
    fn is_identifier_start(&self, ch: char) -> (r: bool)
        ensures
            r == identifier_start(ch),
    {
        CalDialect::starts_identifier(ch)
    }

    fn is_identifier_part(&self, ch: char) -> (r: bool)
        ensures
            r == identifier_part(ch),
    {
        CalDialect::continues_identifier(ch)
    }
}

} // verus!
