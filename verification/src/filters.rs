//! The string-case-conversion filters the template engine is augmented
//! with: kebab-case, PascalCase, camelCase and snake_case.
//!
//! The conversions themselves are done by the `convert_case` crate behind
//! trusted wrappers; each filter applies its conversion to string values and
//! passes any other value through unchanged.

use std::collections::HashMap;
use vstd::prelude::*;

verus! {

/// What `convert_case` turns a string into for kebab-case: lower-case words
/// joined by hyphens.
pub uninterp spec fn kebab_of(s: Seq<char>) -> Seq<char>;

/// What `convert_case` turns a string into for PascalCase: each word
/// capitalized, concatenated without separators.
pub uninterp spec fn pascal_of(s: Seq<char>) -> Seq<char>;

/// What `convert_case` turns a string into for camelCase: PascalCase with
/// the first word lower-cased.
pub uninterp spec fn camel_of(s: Seq<char>) -> Seq<char>;

/// What `convert_case` turns a string into for snake_case: lower-case words
/// joined by underscores.
pub uninterp spec fn snake_of(s: Seq<char>) -> Seq<char>;

/// Relies on `convert_case::Casing::to_case` with `Case::Kebab`: the result
/// depends on the characters alone.
#[verifier::external_body]
fn case_kebab(s: &str) -> (r: String)
    ensures
        r@ == kebab_of(s@),
{
    convert_case::Casing::to_case(&s, convert_case::Case::Kebab)
}

/// Relies on `convert_case::Casing::to_case` with `Case::Pascal`: the
/// result depends on the characters alone.
#[verifier::external_body]
fn case_pascal(s: &str) -> (r: String)
    ensures
        r@ == pascal_of(s@),
{
    convert_case::Casing::to_case(&s, convert_case::Case::Pascal)
}

/// Relies on `convert_case::Casing::to_case` with `Case::Camel`: the result
/// depends on the characters alone.
#[verifier::external_body]
fn case_camel(s: &str) -> (r: String)
    ensures
        r@ == camel_of(s@),
{
    convert_case::Casing::to_case(&s, convert_case::Case::Camel)
}

/// Relies on `convert_case::Casing::to_case` with `Case::Snake`: the result
/// depends on the characters alone.
#[verifier::external_body]
fn case_snake(s: &str) -> (r: String)
    ensures
        r@ == snake_of(s@),
{
    convert_case::Casing::to_case(&s, convert_case::Case::Snake)
}

#[verifier::external_type_specification]
#[verifier::external_body]
pub struct ExValue(tera::Value);

/// The text of a template-engine value: `Some` of its string for string
/// values, `None` for every other kind of value.
pub uninterp spec fn value_text(v: tera::Value) -> Option<Seq<char>>;

/// Relies on `serde_json::Value::as_str` (re-exported as `tera::Value`):
/// string values yield their text, every other kind yields nothing.
#[verifier::external_body]
fn value_str(v: &tera::Value) -> (r: Option<String>)
    ensures
        match r {
            Option::Some(s) => value_text(*v) == Option::Some(s@),
            Option::None => value_text(*v) is None,
        },
{
    v.as_str().map(|s| s.to_owned())
}

/// Relies on `serde_json::Value::String` (re-exported as `tera::Value`):
/// the constructed value is a string value holding the given text.
#[verifier::external_body]
fn value_of_string(s: String) -> (r: tera::Value)
    ensures
        value_text(r) == Option::Some(s@),
{
    tera::Value::String(s)
}

/// Relies on `serde_json::Value::clone` (re-exported as `tera::Value`): the
/// clone equals the original value.
#[verifier::external_body]
fn value_duplicate(v: &tera::Value) -> (r: tera::Value)
    ensures
        r == *v,
{
    v.clone()
}

/// Filter that converts a string to kebab-case.
pub struct KebabFilter;

/// Filter that converts a string to PascalCase.
pub struct PascalFilter;

/// Filter that converts a string to camelCase.
pub struct CamelFilter;

/// Filter that converts a string to snake_case.
pub struct SnakeFilter;

impl KebabFilter {
    /// The conversion on a plain string.
    pub fn apply(s: &str) -> (r: String)
        ensures
            r@ == kebab_of(s@),
    {
        case_kebab(s)
    }

    /// The filter on an engine value: string values are converted, any
    /// other value passes through as the very same value.
    pub fn apply_value(v: &tera::Value) -> (r: tera::Value)
        ensures
            match value_text(*v) {
                Option::Some(s) => value_text(r) == Option::Some(kebab_of(s)),
                Option::None => r == *v,
            },
    {
        match value_str(v) {
            Option::Some(s) => value_of_string(case_kebab(s.as_str())),
            Option::None => value_duplicate(v),
        }
    }
}

impl PascalFilter {
    /// The conversion on a plain string.
    pub fn apply(s: &str) -> (r: String)
        ensures
            r@ == pascal_of(s@),
    {
        case_pascal(s)
    }

    /// The filter on an engine value: string values are converted, any
    /// other value passes through as the very same value.
    pub fn apply_value(v: &tera::Value) -> (r: tera::Value)
        ensures
            match value_text(*v) {
                Option::Some(s) => value_text(r) == Option::Some(pascal_of(s)),
                Option::None => r == *v,
            },
    {
        match value_str(v) {
            Option::Some(s) => value_of_string(case_pascal(s.as_str())),
            Option::None => value_duplicate(v),
        }
    }
}

impl CamelFilter {
    /// The conversion on a plain string.
    pub fn apply(s: &str) -> (r: String)
        ensures
            r@ == camel_of(s@),
    {
        case_camel(s)
    }

    /// The filter on an engine value: string values are converted, any
    /// other value passes through as the very same value.
    pub fn apply_value(v: &tera::Value) -> (r: tera::Value)
        ensures
            match value_text(*v) {
                Option::Some(s) => value_text(r) == Option::Some(camel_of(s)),
                Option::None => r == *v,
            },
    {
        match value_str(v) {
            Option::Some(s) => value_of_string(case_camel(s.as_str())),
            Option::None => value_duplicate(v),
        }
    }
}

impl SnakeFilter {
    /// The conversion on a plain string.
    pub fn apply(s: &str) -> (r: String)
        ensures
            r@ == snake_of(s@),
    {
        case_snake(s)
    }

    /// The filter on an engine value: string values are converted, any
    /// other value passes through as the very same value.
    pub fn apply_value(v: &tera::Value) -> (r: tera::Value)
        ensures
            match value_text(*v) {
                Option::Some(s) => value_text(r) == Option::Some(snake_of(s)),
                Option::None => r == *v,
            },
    {
        match value_str(v) {
            Option::Some(s) => value_of_string(case_snake(s.as_str())),
            Option::None => value_duplicate(v),
        }
    }
}

/// The kebab filter in the shape the template engine registers: the value
/// converted when it is a string, passed through unchanged otherwise.
pub(crate) fn kebab_filter_fn(v: &tera::Value, _args: &HashMap<String, tera::Value>) -> (r: Result<
    tera::Value,
    tera::Error,
>)
    ensures
        r matches Ok(out) && (match value_text(*v) {
            Option::Some(s) => value_text(out) == Option::Some(kebab_of(s)),
            Option::None => out == *v,
        }),
{
    Ok(KebabFilter::apply_value(v))
}

/// The pascal filter in the shape the template engine registers.
pub(crate) fn pascal_filter_fn(
    v: &tera::Value,
    _args: &HashMap<String, tera::Value>,
) -> (r: Result<tera::Value, tera::Error>)
    ensures
        r matches Ok(out) && (match value_text(*v) {
            Option::Some(s) => value_text(out) == Option::Some(pascal_of(s)),
            Option::None => out == *v,
        }),
{
    Ok(PascalFilter::apply_value(v))
}

/// The camel filter in the shape the template engine registers.
pub(crate) fn camel_filter_fn(v: &tera::Value, _args: &HashMap<String, tera::Value>) -> (r: Result<
    tera::Value,
    tera::Error,
>)
    ensures
        r matches Ok(out) && (match value_text(*v) {
            Option::Some(s) => value_text(out) == Option::Some(camel_of(s)),
            Option::None => out == *v,
        }),
{
    Ok(CamelFilter::apply_value(v))
}

/// The snake filter in the shape the template engine registers.
pub(crate) fn snake_filter_fn(v: &tera::Value, _args: &HashMap<String, tera::Value>) -> (r: Result<
    tera::Value,
    tera::Error,
>)
    ensures
        r matches Ok(out) && (match value_text(*v) {
            Option::Some(s) => value_text(out) == Option::Some(snake_of(s)),
            Option::None => out == *v,
        }),
{
    Ok(SnakeFilter::apply_value(v))
}

} // verus!
