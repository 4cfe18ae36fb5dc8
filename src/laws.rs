//! Properties of the preview that follow from the resolution rules.

use vstd::prelude::*;
use crate::preview::{link_content, meta_content, preview_of, title_text, PreviewModel};

verus! {

/// A non-empty `og:title` content is the title, whatever else the page holds.
pub proof fn og_title_is_title(url: Seq<char>, doc: Seq<char>, content: Seq<char>)
    requires
        meta_content(doc, "property"@, "og:title"@) == Some(Some(content)),
        content.len() > 0,
    ensures
        preview_of(url, doc).title == Some(content),
{
}

/// A page with no `og:title`, no `meta[name='title']` and no `title` element
/// has no title.
pub proof fn no_title_source_no_title(url: Seq<char>, doc: Seq<char>)
    requires
        meta_content(doc, "property"@, "og:title"@) is None,
        meta_content(doc, "name"@, "title"@) is None,
        title_text(doc) is None,
    ensures
        preview_of(url, doc).title is None,
{
}

/// A page with neither `og:url` nor `link[rel='canonical']` takes the URL it
/// was fetched from as its canonical URL.
pub proof fn no_canonical_source_keeps_input_url(url: Seq<char>, doc: Seq<char>)
    requires
        meta_content(doc, "property"@, "og:url"@) is None,
        link_content(doc, "canonical"@) is None,
    ensures
        preview_of(url, doc).url == Some(url),
{
}

/// A non-empty `og:description` wins over `meta[name='description']`.
pub proof fn og_description_before_meta_description(
    url: Seq<char>,
    doc: Seq<char>,
    og: Seq<char>,
    meta: Seq<char>,
)
    requires
        meta_content(doc, "property"@, "og:description"@) == Some(Some(og)),
        meta_content(doc, "name"@, "description"@) == Some(Some(meta)),
        og.len() > 0,
    ensures
        preview_of(url, doc).description == Some(og),
{
}

/// Two previews of the same page and URL are the same: resolution reads the
/// page and nothing else.
pub proof fn preview_is_idempotent(
    url: Seq<char>,
    doc: Seq<char>,
    first: PreviewModel,
    second: PreviewModel,
)
    requires
        first == preview_of(url, doc),
        second == preview_of(url, doc),
    ensures
        first == second,
{
}

/// No field stands present with an empty value, except a canonical URL taken
/// from an empty input URL; the canonical URL is never absent.
pub proof fn present_fields_are_non_empty(url: Seq<char>, doc: Seq<char>)
    ensures
        preview_of(url, doc).description matches Some(s) ==> s.len() > 0,
        preview_of(url, doc).title matches Some(s) ==> s.len() > 0,
        preview_of(url, doc).name matches Some(s) ==> s.len() > 0,
        preview_of(url, doc).image matches Some(s) ==> s.len() > 0,
        preview_of(url, doc).url is Some,
        url.len() > 0 ==> preview_of(url, doc).url->0.len() > 0,
{
}

} // verus!
