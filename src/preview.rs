//! The preview assembler: a page and the URL it came from, resolved into the
//! five preview fields, and a text rendering of the result.

use vstd::prelude::*;
use crate::page::{extract_from_element, extract_from_tag, first_match_attribute, first_tag_text};
use crate::resolve::{
    from_tags, resolve_from_tags, resolve_url, resolve_with_title, url_from, with_title,
};

verus! {

/// A fetched page: the URL it was fetched from and its HTML source.
#[derive(Debug)]
pub struct Preview {
    pub url: String,
    pub document: String,
}

/// The five preview fields. Each is absent or a non-empty string.
#[derive(Debug)]
pub struct PreviewResponse {
    pub description: Option<String>,
    pub title: Option<String>,
    pub url: Option<String>,
    pub name: Option<String>,
    pub image: Option<String>,
}

/// The five preview fields as sequences of characters.
pub struct PreviewModel {
    pub description: Option<Seq<char>>,
    pub title: Option<Seq<char>>,
    pub url: Option<Seq<char>>,
    pub name: Option<Seq<char>>,
    pub image: Option<Seq<char>>,
}

impl View for PreviewResponse {
    type V = PreviewModel;

    open spec fn view(&self) -> PreviewModel {
        PreviewModel {
            description: self.description.deep_view(),
            title: self.title.deep_view(),
            url: self.url.deep_view(),
            name: self.name.deep_view(),
            image: self.image.deep_view(),
        }
    }
}

/// The `content` attribute of the first `meta` element whose `key` is `value`.
pub open spec fn meta_content(doc: Seq<char>, key: Seq<char>, value: Seq<char>) -> Option<
    Option<Seq<char>>,
> {
    first_match_attribute(doc, "meta"@, key, value, "content"@)
}

/// The `content` attribute of the first `link` element whose `rel` is `rel`.
pub open spec fn link_content(doc: Seq<char>, rel: Seq<char>) -> Option<Option<Seq<char>>> {
    first_match_attribute(doc, "link"@, "rel"@, rel, "content"@)
}

/// The text of the first `title` element.
pub open spec fn title_text(doc: Seq<char>) -> Option<Seq<char>> {
    first_tag_text(doc, "title"@)
}

/// `og:description`, then `meta[name='description']`.
pub open spec fn description_of(doc: Seq<char>) -> Option<Seq<char>> {
    from_tags(
        meta_content(doc, "property"@, "og:description"@),
        meta_content(doc, "name"@, "description"@),
    )
}

/// `og:title`, then `meta[name='title']`, then the `title` element.
pub open spec fn title_of(doc: Seq<char>) -> Option<Seq<char>> {
    with_title(
        meta_content(doc, "property"@, "og:title"@),
        meta_content(doc, "name"@, "title"@),
        title_text(doc),
    )
}

/// `og:site_name`, then `meta[name='title']`, then the `title` element.
pub open spec fn site_name_of(doc: Seq<char>) -> Option<Seq<char>> {
    with_title(
        meta_content(doc, "property"@, "og:site_name"@),
        meta_content(doc, "name"@, "title"@),
        title_text(doc),
    )
}

/// `og:image`, then `link[rel='image_src']`.
pub open spec fn image_of(doc: Seq<char>) -> Option<Seq<char>> {
    from_tags(meta_content(doc, "property"@, "og:image"@), link_content(doc, "image_src"@))
}

/// `og:url`, then `link[rel='canonical']`, then the URL the page came from.
pub open spec fn site_url_of(doc: Seq<char>, input: Seq<char>) -> Seq<char> {
    url_from(meta_content(doc, "property"@, "og:url"@), link_content(doc, "canonical"@), input)
}

/// The preview of the page `doc` fetched from `url`.
pub open spec fn preview_of(url: Seq<char>, doc: Seq<char>) -> PreviewModel {
    PreviewModel {
        description: description_of(doc),
        title: title_of(doc),
        url: Some(site_url_of(doc, url)),
        name: site_name_of(doc),
        image: image_of(doc),
    }
}

/// A field's value, or its placeholder when absent.
pub open spec fn value_or(value: Option<Seq<char>>, placeholder: Seq<char>) -> Seq<char> {
    match value {
        Some(s) => s,
        None => placeholder,
    }
}

/// The text view of a preview: one labelled line per field, in the order
/// `Url`, `Name`, `Title`, `Description`, `Image`, after an empty line.
pub open spec fn rendered(m: PreviewModel) -> Seq<char> {
    "\nUrl >> "@ + value_or(m.url, "Url not available"@) + "\nName >> "@ + value_or(
        m.name,
        "Name not available"@,
    ) + "\nTitle >> "@ + value_or(m.title, "Title not available"@) + "\nDescription >> "@
        + value_or(m.description, "Description not available"@) + "\nImage >> "@ + value_or(
        m.image,
        "Image not available"@,
    ) + "\n"@
}

/// Appends a field's value, or its placeholder when absent, to `out`.
fn append_value_or(out: &mut String, value: &Option<String>, placeholder: &str)
    ensures
        final(out)@ == old(out)@ + value_or(value.deep_view(), placeholder@),
{
    match value {
        Some(s) => out.append(s.as_str()),
        None => out.append(placeholder),
    }
}

impl PreviewResponse {
    /// The text view of the preview, with a placeholder for each absent field.
    pub fn render(&self) -> (r: String)
        ensures
            r@ == rendered(self@),
    {
        let mut out = String::from_str("\nUrl >> ");
        append_value_or(&mut out, &self.url, "Url not available");
        out.append("\nName >> ");
        append_value_or(&mut out, &self.name, "Name not available");
        out.append("\nTitle >> ");
        append_value_or(&mut out, &self.title, "Title not available");
        out.append("\nDescription >> ");
        append_value_or(&mut out, &self.description, "Description not available");
        out.append("\nImage >> ");
        append_value_or(&mut out, &self.image, "Image not available");
        out.append("\n");
        out
    }
}

impl Preview {
    /// A preview of the page whose HTML source is `document`, fetched from `url`.
    pub fn new(url: &str, document: String) -> (p: Preview)
        ensures
            p.url@ == url@,
            p.document@ == document@,
    {
        Preview { url: url.to_owned(), document }
    }

    /// Resolves all five fields of the preview.
    pub fn fetch_preview(&self) -> (r: PreviewResponse)
        ensures
            r@ == preview_of(self.url@, self.document@),
    {
        let site_description = self.extract_description();
        let site_title = self.extract_title();
        let site_name = self.extract_site_name();
        let site_image = self.extract_image();
        let site_url = self.extract_site_url(self.url.as_str());
        PreviewResponse {
            description: site_description,
            image: site_image,
            name: site_name,
            url: Some(site_url),
            title: site_title,
        }
    }

    /// The description: `og:description`, then `meta[name='description']`.
    pub fn extract_description(&self) -> (r: Option<String>)
        ensures
            r.deep_view() == description_of(self.document@),
    {
        proof {
            reveal_strlit("meta");
            reveal_strlit("property");
            reveal_strlit("name");
            reveal_strlit("og:description");
            reveal_strlit("description");
        }
        let doc = self.document.as_str();
        let og = extract_from_tag(doc, "meta", "property", "og:description", "content");
        let meta = extract_from_tag(doc, "meta", "name", "description", "content");
        resolve_from_tags(og, meta)
    }

    /// The title: `og:title`, then `meta[name='title']`, then the `title` element.
    pub fn extract_title(&self) -> (r: Option<String>)
        ensures
            r.deep_view() == title_of(self.document@),
    {
        proof {
            reveal_strlit("meta");
            reveal_strlit("property");
            reveal_strlit("name");
            reveal_strlit("og:title");
            reveal_strlit("title");
        }
        let doc = self.document.as_str();
        let og = extract_from_tag(doc, "meta", "property", "og:title", "content");
        let meta = extract_from_tag(doc, "meta", "name", "title", "content");
        let element = extract_from_element(doc, "title");
        resolve_with_title(og, meta, element)
    }

    /// The site name: `og:site_name`, then `meta[name='title']`, then the `title`
    /// element.
    pub fn extract_site_name(&self) -> (r: Option<String>)
        ensures
            r.deep_view() == site_name_of(self.document@),
    {
        proof {
            reveal_strlit("meta");
            reveal_strlit("property");
            reveal_strlit("name");
            reveal_strlit("og:site_name");
            reveal_strlit("title");
        }
        let doc = self.document.as_str();
        let og = extract_from_tag(doc, "meta", "property", "og:site_name", "content");
        let meta = extract_from_tag(doc, "meta", "name", "title", "content");
        let element = extract_from_element(doc, "title");
        resolve_with_title(og, meta, element)
    }

    /// The image: `og:image`, then `link[rel='image_src']`.
    pub fn extract_image(&self) -> (r: Option<String>)
        ensures
            r.deep_view() == image_of(self.document@),
    {
        proof {
            reveal_strlit("meta");
            reveal_strlit("property");
            reveal_strlit("og:image");
            reveal_strlit("link");
            reveal_strlit("rel");
            reveal_strlit("image_src");
        }
        let doc = self.document.as_str();
        let og = extract_from_tag(doc, "meta", "property", "og:image", "content");
        let link = extract_from_tag(doc, "link", "rel", "image_src", "content");
        resolve_from_tags(og, link)
    }

    /// The canonical URL: `og:url`, then `link[rel='canonical']`, then `link`, the
    /// URL the page was fetched from.
    pub fn extract_site_url(&self, link: &str) -> (r: String)
        ensures
            r@ == site_url_of(self.document@, link@),
    {
        proof {
            reveal_strlit("meta");
            reveal_strlit("property");
            reveal_strlit("og:url");
            reveal_strlit("link");
            reveal_strlit("rel");
            reveal_strlit("canonical");
        }
        let doc = self.document.as_str();
        let og = extract_from_tag(doc, "meta", "property", "og:url", "content");
        let canonical = extract_from_tag(doc, "link", "rel", "canonical", "content");
        resolve_url(og, canonical, link)
    }
}

} // verus!
