//! Queries on a page's HTML source, answered by scraper.
//!
//! A page is held as its source text. Each query parses that text with
//! `scraper::Html::parse_document` and runs a CSS selector over the tree, so
//! the answer is a function of the text and the query alone.

use vstd::prelude::*;

verus! {

/// A lower-case ASCII word: usable as a tag or attribute name in a selector.
pub open spec fn is_selector_word(s: Seq<char>) -> bool {
    &&& s.len() > 0
    &&& forall|i: int| 0 <= i < s.len() ==> 'a' <= #[trigger] s[i] <= 'z'
}

/// Text that can stand between single quotes in a selector without escapes.
pub open spec fn is_quotable(s: Seq<char>) -> bool {
    forall|i: int|
        0 <= i < s.len() ==> {
            let c = #[trigger] s[i];
            c != '\'' && c != '\\' && c != '\n' && c != '\r' && c != '\x0C'
        }
}

/// The attribute `attr` of the first element that scraper's selector
/// `tag[key='value']` selects in the page `source`: `None` when no element is
/// selected, `Some(None)` when the first one selected lacks the attribute.
pub uninterp spec fn first_match_attribute(
    source: Seq<char>,
    tag: Seq<char>,
    key: Seq<char>,
    value: Seq<char>,
    attr: Seq<char>,
) -> Option<Option<Seq<char>>>;

/// The text (all descendant text nodes, in order) of the first element that
/// scraper's selector `tag` selects in the page `source`, or `None`.
pub uninterp spec fn first_tag_text(source: Seq<char>, tag: Seq<char>) -> Option<Seq<char>>;

/// Relies on scraper: `Html::parse_document` on `source`, `Selector::parse` on
/// `tag[key='value']` (well formed by the `requires`), the first element of
/// `Html::select`, and `Element::attr` on it.
#[verifier::external_body]
pub(crate) fn extract_from_tag(source: &str, tag: &str, key: &str, value: &str, attr: &str) -> (r:
    Option<Option<String>>)
    requires
        is_selector_word(tag@),
        is_selector_word(key@),
        is_quotable(value@),
    ensures
        r.deep_view() == first_match_attribute(source@, tag@, key@, value@, attr@),
{
    let document = scraper::Html::parse_document(source);
    let selector = scraper::Selector::parse(&format!("{}[{}='{}']", tag, key, value)).unwrap();
    let first = document.select(&selector).next();
    first.map(|element| element.value().attr(attr).map(|a| a.to_owned()))
}

/// Relies on scraper: `Html::parse_document` on `source`, `Selector::parse` on
/// the bare tag name (well formed by the `requires`), the first element of
/// `Html::select`, and `ElementRef::text` on it, joined.
#[verifier::external_body]
pub(crate) fn extract_from_element(source: &str, tag: &str) -> (r: Option<String>)
    requires
        is_selector_word(tag@),
    ensures
        r.deep_view() == first_tag_text(source@, tag@),
{
    let document = scraper::Html::parse_document(source);
    let selector = scraper::Selector::parse(tag).unwrap();
    let first = document.select(&selector).next();
    first.map(|element| element.text().collect::<String>())
}

} // verus!
