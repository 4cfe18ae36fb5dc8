use link_preview::preview::{Preview, PreviewResponse};
use link_preview::resolve::{
    attribute_value, resolve_from_tags, resolve_url, resolve_with_title, text_value,
};

fn preview(url: &str, html: &str) -> PreviewResponse {
    Preview::new(url, html.to_string()).fetch_preview()
}

fn some(s: &str) -> Option<String> {
    Some(s.to_string())
}

#[test]
fn og_title_with_title_fallback_scenario() {
    let r = preview(
        "http://x.test/",
        "<html><head><meta property=\"og:title\" content=\"Example\"><title>Fallback</title></head></html>",
    );
    assert_eq!(r.title, some("Example"));
    assert_eq!(r.url, some("http://x.test/"));
    assert_eq!(r.description, None);
    // The site name falls back to the title element.
    assert_eq!(r.name, some("Fallback"));
    assert_eq!(r.image, None);
}

#[test]
fn only_title_element_scenario() {
    let r = preview(
        "http://only.test/page",
        "<html><head><title>Only Title</title></head><body></body></html>",
    );
    assert_eq!(r.title, some("Only Title"));
    assert_eq!(r.name, some("Only Title"));
    assert_eq!(r.url, some("http://only.test/page"));
    assert_eq!(r.description, None);
    assert_eq!(r.image, None);
}

#[test]
fn canonical_link_scenario() {
    let r = preview(
        "http://x.test/",
        "<html><head><link rel=\"canonical\" content=\"https://canon.example/\"></head></html>",
    );
    assert_eq!(r.url, some("https://canon.example/"));
}

#[test]
fn og_url_before_canonical() {
    let r = preview(
        "http://x.test/",
        "<html><head><link rel=\"canonical\" content=\"https://canon.example/\">\
         <meta property=\"og:url\" content=\"https://og.example/\"></head></html>",
    );
    assert_eq!(r.url, some("https://og.example/"));
}

#[test]
fn og_title_wins_over_everything() {
    let r = preview(
        "http://x.test/",
        "<html><head><title>T</title><meta name=\"title\" content=\"M\">\
         <meta property=\"og:title\" content=\"C\"></head></html>",
    );
    assert_eq!(r.title, some("C"));
    assert_eq!(r.name, some("M"));
}

#[test]
fn no_title_sources_give_no_title() {
    let r = preview("http://x.test/", "<html><head></head><body><p>text</p></body></html>");
    assert_eq!(r.title, None);
    assert_eq!(r.name, None);
}

#[test]
fn missing_url_sources_keep_input_url() {
    let r = preview("https://in.example/a?b=c", "<html><head><title>x</title></head></html>");
    assert_eq!(r.url, some("https://in.example/a?b=c"));
}

#[test]
fn og_description_before_meta_description() {
    let r = preview(
        "http://x.test/",
        "<html><head><meta name=\"description\" content=\"B\">\
         <meta property=\"og:description\" content=\"A\"></head></html>",
    );
    assert_eq!(r.description, some("A"));
}

#[test]
fn meta_description_when_no_og_description() {
    let r = preview(
        "http://x.test/",
        "<html><head><meta name=\"description\" content=\"B\"></head></html>",
    );
    assert_eq!(r.description, some("B"));
}

#[test]
fn image_sources_in_order() {
    let both = preview(
        "http://x.test/",
        "<html><head><link rel=\"image_src\" content=\"/l.png\">\
         <meta property=\"og:image\" content=\"/og.png\"></head></html>",
    );
    assert_eq!(both.image, some("/og.png"));
    let link = preview(
        "http://x.test/",
        "<html><head><link rel=\"image_src\" content=\"/l.png\"></head></html>",
    );
    assert_eq!(link.image, some("/l.png"));
}

#[test]
fn og_site_name_is_name() {
    let r = preview(
        "http://x.test/",
        "<html><head><meta property=\"og:site_name\" content=\"Site\"><title>T</title></head></html>",
    );
    assert_eq!(r.name, some("Site"));
    assert_eq!(r.title, some("T"));
}

#[test]
fn element_without_content_falls_through() {
    let r = preview(
        "http://x.test/",
        "<html><head><meta property=\"og:title\"><meta property=\"og:url\">\
         <title>Fallback</title></head></html>",
    );
    assert_eq!(r.title, some("Fallback"));
    assert_eq!(r.url, some("http://x.test/"));
}

#[test]
fn empty_content_falls_through() {
    let r = preview(
        "http://x.test/",
        "<html><head><meta property=\"og:description\" content=\"\">\
         <meta name=\"description\" content=\"D\"><title></title></head></html>",
    );
    assert_eq!(r.description, some("D"));
    assert_eq!(r.title, None);
}

#[test]
fn attribute_match_is_exact() {
    let r = preview(
        "http://x.test/",
        "<html><head><meta property=\"og:titles\" content=\"No\">\
         <meta property=\"OG:TITLE\" content=\"No\"><title>Yes</title></head></html>",
    );
    assert_eq!(r.title, some("Yes"));
}

#[test]
fn first_match_in_document_order() {
    let r = preview(
        "http://x.test/",
        "<html><head><meta property=\"og:title\" content=\"First\">\
         <meta property=\"og:title\" content=\"Second\"></head></html>",
    );
    assert_eq!(r.title, some("First"));
}

#[test]
fn empty_document() {
    let r = preview("http://x.test/", "");
    assert_eq!(r.title, None);
    assert_eq!(r.name, None);
    assert_eq!(r.description, None);
    assert_eq!(r.image, None);
    assert_eq!(r.url, some("http://x.test/"));
}

#[test]
fn fetch_preview_twice_is_the_same() {
    let p = Preview::new(
        "http://x.test/",
        "<html><head><meta property=\"og:title\" content=\"E\"><title>F</title>\
         <meta property=\"og:image\" content=\"i.png\"></head></html>"
            .to_string(),
    );
    let a = p.fetch_preview();
    let b = p.fetch_preview();
    assert_eq!(a.title, b.title);
    assert_eq!(a.name, b.name);
    assert_eq!(a.url, b.url);
    assert_eq!(a.description, b.description);
    assert_eq!(a.image, b.image);
}

#[test]
fn new_keeps_url_and_document() {
    let p = Preview::new("http://x.test/", "<p>x</p>".to_string());
    assert_eq!(p.url, "http://x.test/");
    assert_eq!(p.document, "<p>x</p>");
}

#[test]
fn render_with_all_fields() {
    let r = PreviewResponse {
        description: some("D"),
        title: some("T"),
        url: some("U"),
        name: some("N"),
        image: some("I"),
    };
    assert_eq!(
        r.render(),
        "\nUrl >> U\nName >> N\nTitle >> T\nDescription >> D\nImage >> I\n"
    );
}

#[test]
fn render_with_placeholders() {
    let r = PreviewResponse {
        description: None,
        title: None,
        url: some("http://x.test/"),
        name: None,
        image: None,
    };
    assert_eq!(
        r.render(),
        "\nUrl >> http://x.test/\nName >> Name not available\nTitle >> Title not available\
         \nDescription >> Description not available\nImage >> Image not available\n"
    );
}

#[test]
fn attribute_and_text_values() {
    assert_eq!(attribute_value(None), None);
    assert_eq!(attribute_value(Some(None)), None);
    assert_eq!(attribute_value(Some(some(""))), None);
    assert_eq!(attribute_value(Some(some("v"))), some("v"));
    assert_eq!(text_value(None), None);
    assert_eq!(text_value(some("")), None);
    assert_eq!(text_value(some("t")), some("t"));
}

#[test]
fn resolvers_on_given_lookups() {
    assert_eq!(resolve_from_tags(Some(some("a")), Some(some("b"))), some("a"));
    assert_eq!(resolve_from_tags(Some(None), Some(some("b"))), some("b"));
    assert_eq!(resolve_from_tags(None, None), None);
    assert_eq!(resolve_with_title(None, Some(some("")), some("t")), some("t"));
    assert_eq!(resolve_with_title(None, Some(some("m")), some("t")), some("m"));
    assert_eq!(resolve_with_title(None, None, None), None);
    assert_eq!(resolve_url(None, None, "in"), "in");
    assert_eq!(resolve_url(Some(some("")), Some(some("c")), "in"), "c");
}
