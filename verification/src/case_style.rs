//! The case-conversion policy: which styles exist, how a style name is
//! parsed, and what string each style produces for a given identifier.

use vstd::prelude::*;
use crate::strutil::str_eq;
use heck::ToKebabCase;
use heck::ToLowerCamelCase;
use heck::ToShoutySnakeCase;
use heck::ToSnakeCase;
use heck::ToUpperCamelCase;

verus! {

/// The casing for the database representation. Follows serde's naming
/// convention for the style names.
#[derive(Clone, Copy, Debug, PartialEq, Eq, Structural)]
pub enum CaseStyle {
    Camel,
    Kebab,
    Pascal,
    Upper,
    ScreamingSnake,
    Snake,
    Verbatim,
}

/// What `heck`'s lowerCamelCase conversion returns for a given input.
pub uninterp spec fn lower_camel_of(s: Seq<char>) -> Seq<char>;

/// What `heck`'s kebab-case conversion returns for a given input.
pub uninterp spec fn kebab_of(s: Seq<char>) -> Seq<char>;

/// What `heck`'s UpperCamelCase conversion returns for a given input.
pub uninterp spec fn upper_camel_of(s: Seq<char>) -> Seq<char>;

/// What `heck`'s SHOUTY_SNAKE_CASE conversion returns for a given input.
pub uninterp spec fn shouty_snake_of(s: Seq<char>) -> Seq<char>;

/// What `heck`'s snake_case conversion returns for a given input.
pub uninterp spec fn snake_of(s: Seq<char>) -> Seq<char>;

/// What the Unicode uppercase mapping of a string is.
pub uninterp spec fn upper_of(s: Seq<char>) -> Seq<char>;

/// Relies on heck::ToLowerCamelCase::to_lower_camel_case: the result depends
/// on the input characters alone, and an empty input gives an empty result.
#[verifier::external_body]
fn to_lower_camel(s: &str) -> (r: String)
    ensures
        r@ == lower_camel_of(s@),
        s@.len() == 0 ==> r@.len() == 0,
{
    s.to_lower_camel_case()
}

/// Relies on heck::ToKebabCase::to_kebab_case: the result depends on the
/// input characters alone, and an empty input gives an empty result.
#[verifier::external_body]
fn to_kebab(s: &str) -> (r: String)
    ensures
        r@ == kebab_of(s@),
        s@.len() == 0 ==> r@.len() == 0,
{
    s.to_kebab_case()
}

/// Relies on heck::ToUpperCamelCase::to_upper_camel_case: the result depends
/// on the input characters alone, and an empty input gives an empty result.
#[verifier::external_body]
fn to_upper_camel(s: &str) -> (r: String)
    ensures
        r@ == upper_camel_of(s@),
        s@.len() == 0 ==> r@.len() == 0,
{
    s.to_upper_camel_case()
}

/// Relies on heck::ToShoutySnakeCase::to_shouty_snake_case: the result
/// depends on the input characters alone, and an empty input gives an empty
/// result.
#[verifier::external_body]
fn to_shouty_snake(s: &str) -> (r: String)
    ensures
        r@ == shouty_snake_of(s@),
        s@.len() == 0 ==> r@.len() == 0,
{
    s.to_shouty_snake_case()
}

/// Relies on heck::ToSnakeCase::to_snake_case: the result depends on the
/// input characters alone, and an empty input gives an empty result.
#[verifier::external_body]
pub(crate) fn to_snake(s: &str) -> (r: String)
    ensures
        r@ == snake_of(s@),
        s@.len() == 0 ==> r@.len() == 0,
{
    s.to_snake_case()
}

/// Relies on str::to_uppercase: the Unicode uppercase mapping depends on the
/// characters alone, and an empty input gives an empty result.
#[verifier::external_body]
fn to_upper(s: &str) -> (r: String)
    ensures
        r@ == upper_of(s@),
        s@.len() == 0 ==> r@.len() == 0,
{
    s.to_uppercase()
}

/// The style a given style name selects, if any.
pub open spec fn style_of_name(s: Seq<char>) -> Option<CaseStyle> {
    if s == "camelCase"@ {
        Some(CaseStyle::Camel)
    } else if s == "kebab-case"@ {
        Some(CaseStyle::Kebab)
    } else if s == "PascalCase"@ {
        Some(CaseStyle::Pascal)
    } else if s == "SCREAMING_SNAKE_CASE"@ {
        Some(CaseStyle::ScreamingSnake)
    } else if s == "UPPERCASE"@ {
        Some(CaseStyle::Upper)
    } else if s == "snake_case"@ {
        Some(CaseStyle::Snake)
    } else if s == "verbatim"@ || s == "verbatimcase"@ {
        Some(CaseStyle::Verbatim)
    } else {
        None
    }
}

impl CaseStyle {
    /// Parse a style name. An unrecognised name is a configuration error,
    /// reported by the caller.
    pub fn from_string(name: &str) -> (r: Option<CaseStyle>)
        ensures
            r == style_of_name(name@),
    {
        if str_eq(name, "camelCase") {
            Some(CaseStyle::Camel)
        } else if str_eq(name, "kebab-case") {
            Some(CaseStyle::Kebab)
        } else if str_eq(name, "PascalCase") {
            Some(CaseStyle::Pascal)
        } else if str_eq(name, "SCREAMING_SNAKE_CASE") {
            Some(CaseStyle::ScreamingSnake)
        } else if str_eq(name, "UPPERCASE") {
            Some(CaseStyle::Upper)
        } else if str_eq(name, "snake_case") {
            Some(CaseStyle::Snake)
        } else if str_eq(name, "verbatim") || str_eq(name, "verbatimcase") {
            Some(CaseStyle::Verbatim)
        } else {
            None
        }
    }
}

/// The wire string a style derives from an identifier.
pub open spec fn stylized(value: Seq<char>, style: CaseStyle) -> Seq<char> {
    match style {
        CaseStyle::Camel => lower_camel_of(value),
        CaseStyle::Kebab => kebab_of(value),
        CaseStyle::Pascal => upper_camel_of(value),
        CaseStyle::Upper => upper_of(value),
        CaseStyle::ScreamingSnake => shouty_snake_of(value),
        CaseStyle::Snake => snake_of(value),
        CaseStyle::Verbatim => value,
    }
}

/// Convert an identifier to its wire string under the given style.
pub fn stylize_value(value: &str, style: CaseStyle) -> (r: String)
    ensures
        r@ == stylized(value@, style),
{
    match style {
        CaseStyle::Camel => to_lower_camel(value),
        CaseStyle::Kebab => to_kebab(value),
        CaseStyle::Pascal => to_upper_camel(value),
        CaseStyle::Upper => to_upper(value),
        CaseStyle::ScreamingSnake => to_shouty_snake(value),
        CaseStyle::Snake => to_snake(value),
        CaseStyle::Verbatim => value.to_owned(),
    }
}

} // verus!
