use mail_relay::content::{render, ContentTypeDeclaration, TransportContentType};

fn rendered(body: &str, tag: &str) -> (String, TransportContentType) {
    render(body.to_string(), &ContentTypeDeclaration::from_tag(tag.to_string()))
}

#[test]
fn plain_body_is_unchanged_and_text_plain() {
    let (body, content_type) = rendered("Hello *world*\n# not a heading", "plain");
    assert_eq!(body, "Hello *world*\n# not a heading");
    assert_eq!(content_type, TransportContentType::TextPlain);
}

#[test]
fn empty_plain_body_stays_empty() {
    let (body, content_type) = rendered("", "plain");
    assert_eq!(body, "");
    assert_eq!(content_type, TransportContentType::TextPlain);
}

#[test]
fn markdown_heading_becomes_heading_element() {
    let (body, content_type) = rendered("# Hi", "markdown");
    assert_eq!(body, "<h1>Hi</h1>\n");
    assert_eq!(content_type, TransportContentType::TextHtml);
}

#[test]
fn markdown_emphasis_and_links_are_converted() {
    let (body, content_type) = rendered("**bold** and [a link](https://example.com)", "markdown");
    assert_eq!(
        body,
        "<p><strong>bold</strong> and <a href=\"https://example.com\">a link</a></p>\n"
    );
    assert_eq!(content_type, TransportContentType::TextHtml);
}

#[test]
fn markdown_list_is_converted() {
    let (body, _) = rendered("- one\n- two\n", "markdown");
    assert_eq!(body, "<ul>\n<li>one</li>\n<li>two</li>\n</ul>\n");
}

#[test]
fn markdown_body_is_not_handed_back() {
    let (body, _) = rendered("plain words", "markdown");
    assert_ne!(body, "plain words");
    assert_eq!(body, "<p>plain words</p>\n");
}

#[test]
fn html_tag_passes_body_through_as_html() {
    let (body, content_type) = rendered("<b>x</b> # Hi", "html");
    assert_eq!(body, "<b>x</b> # Hi");
    assert_eq!(content_type, TransportContentType::TextHtml);
}

#[test]
fn empty_tag_passes_body_through_as_html() {
    let (body, content_type) = rendered("# Hi", "");
    assert_eq!(body, "# Hi");
    assert_eq!(content_type, TransportContentType::TextHtml);
}

#[test]
fn unknown_tag_passes_body_through_as_html() {
    let (body, content_type) = rendered("**bold**", "foo");
    assert_eq!(body, "**bold**");
    assert_eq!(content_type, TransportContentType::TextHtml);
}

#[test]
fn tags_are_matched_exactly() {
    let (body, content_type) = rendered("# Hi", "Markdown");
    assert_eq!(body, "# Hi");
    assert_eq!(content_type, TransportContentType::TextHtml);
    let (body, content_type) = rendered("# Hi", "plain ");
    assert_eq!(body, "# Hi");
    assert_eq!(content_type, TransportContentType::TextHtml);
}

#[test]
fn other_declaration_ignores_its_text() {
    let declaration = ContentTypeDeclaration::Other("markdown".to_string());
    let (body, content_type) = render("# Hi".to_string(), &declaration);
    assert_eq!(body, "# Hi");
    assert_eq!(content_type, TransportContentType::TextHtml);
}

#[test]
fn from_tag_recognises_the_two_known_tags() {
    assert!(matches!(
        ContentTypeDeclaration::from_tag("plain".to_string()),
        ContentTypeDeclaration::Plain
    ));
    assert!(matches!(
        ContentTypeDeclaration::from_tag("markdown".to_string()),
        ContentTypeDeclaration::Markdown
    ));
    match ContentTypeDeclaration::from_tag("html".to_string()) {
        ContentTypeDeclaration::Other(text) => assert_eq!(text, "html"),
        other => panic!("unexpected declaration {:?}", other),
    }
}

#[test]
fn tag_round_trips() {
    for tag in ["plain", "markdown", "html", "", "foo", "text/html"] {
        assert_eq!(ContentTypeDeclaration::from_tag(tag.to_string()).tag(), tag);
    }
}

#[test]
fn transport_type_of_each_declaration() {
    assert_eq!(
        ContentTypeDeclaration::Plain.transport_type(),
        TransportContentType::TextPlain
    );
    assert_eq!(
        ContentTypeDeclaration::Markdown.transport_type(),
        TransportContentType::TextHtml
    );
    assert_eq!(
        ContentTypeDeclaration::Other("x".to_string()).transport_type(),
        TransportContentType::TextHtml
    );
}

#[test]
fn clone_keeps_the_declaration() {
    assert_eq!(ContentTypeDeclaration::Plain.clone().tag(), "plain");
    assert_eq!(ContentTypeDeclaration::Markdown.clone().tag(), "markdown");
    assert_eq!(
        ContentTypeDeclaration::Other("html".to_string()).clone().tag(),
        "html"
    );
}

#[test]
fn media_types_are_written_out() {
    assert_eq!(TransportContentType::TextPlain.media_type(), "text/plain");
    assert_eq!(TransportContentType::TextHtml.media_type(), "text/html");
}
