//! The field resolver: each preview field is taken from the first of its
//! candidate sources that yields a value.
//!
//! A candidate yields a value only when it is a non-empty string: a selected
//! element that lacks the attribute, or an empty attribute or text, falls
//! through to the next candidate.

use vstd::prelude::*;

verus! {

/// What an attribute lookup contributes: the attribute, when an element was
/// selected and carries it with a non-empty value.
pub open spec fn attribute_value_of(found: Option<Option<Seq<char>>>) -> Option<Seq<char>> {
    match found {
        Some(Some(s)) => if s.len() > 0 {
            Some(s)
        } else {
            None
        },
        _ => None,
    }
}

/// What an element's text contributes: the text, when an element was selected
/// and its text is non-empty.
pub open spec fn text_value_of(found: Option<Seq<char>>) -> Option<Seq<char>> {
    match found {
        Some(s) => if s.len() > 0 {
            Some(s)
        } else {
            None
        },
        None => None,
    }
}

/// The first of two candidates that holds a value.
pub open spec fn first_of(a: Option<Seq<char>>, b: Option<Seq<char>>) -> Option<Seq<char>> {
    match a {
        Some(_) => a,
        None => b,
    }
}

/// Two attribute lookups, tried in order.
pub open spec fn from_tags(
    primary: Option<Option<Seq<char>>>,
    secondary: Option<Option<Seq<char>>>,
) -> Option<Seq<char>> {
    first_of(attribute_value_of(primary), attribute_value_of(secondary))
}

/// Two attribute lookups and then the text of the `title` element.
pub open spec fn with_title(
    primary: Option<Option<Seq<char>>>,
    secondary: Option<Option<Seq<char>>>,
    title: Option<Seq<char>>,
) -> Option<Seq<char>> {
    first_of(attribute_value_of(primary), first_of(attribute_value_of(secondary), text_value_of(title)))
}

/// Two attribute lookups and then the URL the page was fetched from.
pub open spec fn url_from(
    primary: Option<Option<Seq<char>>>,
    secondary: Option<Option<Seq<char>>>,
    input: Seq<char>,
) -> Seq<char> {
    match from_tags(primary, secondary) {
        Some(s) => s,
        None => input,
    }
}

/// The value of an attribute lookup, if it yields one.
pub fn attribute_value(found: Option<Option<String>>) -> (r: Option<String>)
    ensures
        r.deep_view() == attribute_value_of(found.deep_view()),
{
    match found {
        Some(Some(s)) => if s.as_str().is_empty() {
            None
        } else {
            Some(s)
        },
        _ => None,
    }
}

/// The value of an element's text, if it yields one.
pub fn text_value(found: Option<String>) -> (r: Option<String>)
    ensures
        r.deep_view() == text_value_of(found.deep_view()),
{
    match found {
        Some(s) => if s.as_str().is_empty() {
            None
        } else {
            Some(s)
        },
        None => None,
    }
}

/// Resolves a field with two attribute candidates (the description, the
/// image): the first that yields a value wins, else the field is absent.
pub fn resolve_from_tags(primary: Option<Option<String>>, secondary: Option<Option<String>>) -> (r:
    Option<String>)
    ensures
        r.deep_view() == from_tags(primary.deep_view(), secondary.deep_view()),
{
    match attribute_value(primary) {
        Some(s) => Some(s),
        None => attribute_value(secondary),
    }
}

/// Resolves a field with two attribute candidates and the `title` element's
/// text as the last resort (the title, the site name).
pub fn resolve_with_title(
    primary: Option<Option<String>>,
    secondary: Option<Option<String>>,
    title: Option<String>,
) -> (r: Option<String>)
    ensures
        r.deep_view() == with_title(primary.deep_view(), secondary.deep_view(), title.deep_view()),
{
    match attribute_value(primary) {
        Some(s) => Some(s),
        None => match attribute_value(secondary) {
            Some(s) => Some(s),
            None => text_value(title),
        },
    }
}

/// Resolves the canonical URL: two attribute candidates, and the URL the page
/// was fetched from when neither yields a value. It is never absent.
pub fn resolve_url(primary: Option<Option<String>>, secondary: Option<Option<String>>, input: &str) -> (r:
    String)
    ensures
        r@ == url_from(primary.deep_view(), secondary.deep_view(), input@),
{
    match resolve_from_tags(primary, secondary) {
        Some(s) => s,
        None => input.to_owned(),
    }
}

} // verus!
