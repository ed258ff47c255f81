//! Content-type declarations and the rendering of a body under them.

use vstd::prelude::*;

verus! {

/// The tag a caller attaches to a body: `plain`, `markdown`, or anything else.
/// `Other` keeps the text of the tag as it came in.
#[derive(Debug)]
pub enum ContentTypeDeclaration {
    Plain,
    Markdown,
    Other(String),
}

/// The mathematical value of a [`ContentTypeDeclaration`].
pub enum DeclarationView {
    Plain,
    Markdown,
    Other(Seq<char>),
}

/// The content type a message carries on the wire to the delivery agent.
#[derive(Debug, Clone, Copy, PartialEq, Eq, Structural)]
pub enum TransportContentType {
    TextPlain,
    TextHtml,
}

impl View for ContentTypeDeclaration {
    type V = DeclarationView;

    open spec fn view(&self) -> DeclarationView {
        match self {
            ContentTypeDeclaration::Plain => DeclarationView::Plain,
            ContentTypeDeclaration::Markdown => DeclarationView::Markdown,
            ContentTypeDeclaration::Other(text) => DeclarationView::Other(text@),
        }
    }
}

/// The declaration that a tag stands for.
pub open spec fn declaration_of(tag: Seq<char>) -> DeclarationView {
    if tag == "plain"@ {
        DeclarationView::Plain
    } else if tag == "markdown"@ {
        DeclarationView::Markdown
    } else {
        DeclarationView::Other(tag)
    }
}

/// The tag that a declaration is written as.
pub open spec fn tag_of(declaration: DeclarationView) -> Seq<char> {
    match declaration {
        DeclarationView::Plain => "plain"@,
        DeclarationView::Markdown => "markdown"@,
        DeclarationView::Other(text) => text,
    }
}

/// The media type string of a transport content type.
pub open spec fn media_type_of(content_type: TransportContentType) -> Seq<char> {
    match content_type {
        TransportContentType::TextPlain => "text/plain"@,
        TransportContentType::TextHtml => "text/html"@,
    }
}

/// The HTML that the CommonMark converter, run with its default options,
/// produces for a Markdown source.
pub uninterp spec fn markdown_html(source: Seq<char>) -> Seq<char>;

/// The transport content type a declaration resolves to: `text/plain` for
/// `Plain`, `text/html` for everything else.
pub open spec fn resolved_type(declaration: DeclarationView) -> TransportContentType {
    match declaration {
        DeclarationView::Plain => TransportContentType::TextPlain,
        _ => TransportContentType::TextHtml,
    }
}

/// The body that goes out under a declaration: the converter's HTML for
/// `Markdown`, the body itself otherwise.
pub open spec fn rendered_body(body: Seq<char>, declaration: DeclarationView) -> Seq<char> {
    match declaration {
        DeclarationView::Markdown => markdown_html(body),
        _ => body,
    }
}

/// Calls `comrak::markdown_to_html` with `comrak::Options::default()`. The
/// conversion is a pure function of the source text; its result is named
/// `markdown_html` and not described further.
#[verifier::external_body]
fn markdown_to_html(source: &str) -> (html: String)
    ensures
        html@ == markdown_html(source@),
{
    comrak::markdown_to_html(source, &comrak::Options::default())
}

impl ContentTypeDeclaration {
    /// Reads a tag. Exactly `plain` and `markdown` are recognised; every other
    /// tag, the empty one included, is kept as `Other`.
    pub fn from_tag(tag: String) -> (declaration: ContentTypeDeclaration)
        ensures
            declaration@ == declaration_of(tag@),
    {
        if tag == "plain".to_owned() {
            ContentTypeDeclaration::Plain
        } else if tag == "markdown".to_owned() {
            ContentTypeDeclaration::Markdown
        } else {
            ContentTypeDeclaration::Other(tag)
        }
    }

    /// Writes the declaration back as a tag.
    pub fn tag(&self) -> (tag: String)
        ensures
            tag@ == tag_of(self@),
    {
        match self {
            ContentTypeDeclaration::Plain => "plain".to_owned(),
            ContentTypeDeclaration::Markdown => "markdown".to_owned(),
            ContentTypeDeclaration::Other(text) => text.clone(),
        }
    }

    /// The transport content type this declaration resolves to.
    pub fn transport_type(&self) -> (content_type: TransportContentType)
        ensures
            content_type == resolved_type(self@),
    {
        match self {
            ContentTypeDeclaration::Plain => TransportContentType::TextPlain,
            _ => TransportContentType::TextHtml,
        }
    }

}

impl Clone for ContentTypeDeclaration {
    /// A copy that stands for the same declaration.
    fn clone(&self) -> (copy: ContentTypeDeclaration)
        ensures
            copy@ == self@,
    {
        match self {
            ContentTypeDeclaration::Plain => ContentTypeDeclaration::Plain,
            ContentTypeDeclaration::Markdown => ContentTypeDeclaration::Markdown,
            ContentTypeDeclaration::Other(text) => ContentTypeDeclaration::Other(text.clone()),
        }
    }
}

impl TransportContentType {
    /// The media type as it is written in a header.
    pub fn media_type(&self) -> (text: String)
        ensures
            text@ == media_type_of(*self),
    {
        match self {
            TransportContentType::TextPlain => "text/plain".to_owned(),
            TransportContentType::TextHtml => "text/html".to_owned(),
        }
    }
}

/// Renders a body under its declaration. Markdown is converted to HTML; a
/// plain body stays as it is and goes out as `text/plain`; under any other
/// declaration the body stays as it is and goes out as `text/html`.
pub fn render(body: String, declaration: &ContentTypeDeclaration) -> (out: (
    String,
    TransportContentType,
))
    ensures
        out.0@ == rendered_body(body@, declaration@),
        out.1 == resolved_type(declaration@),
{
    let content_type = declaration.transport_type();
    match declaration {
        ContentTypeDeclaration::Markdown => (markdown_to_html(body.as_str()), content_type),
        _ => (body, content_type),
    }
}

/// A body declared `plain` goes out unchanged as `text/plain`.
pub proof fn lemma_plain_unchanged(body: Seq<char>, tag: Seq<char>)
    requires
        tag == "plain"@,
    ensures
        rendered_body(body, declaration_of(tag)) == body,
        resolved_type(declaration_of(tag)) == TransportContentType::TextPlain,
{
}

/// A body declared `markdown` goes out as the converter's HTML, as `text/html`.
pub proof fn lemma_markdown_converted(body: Seq<char>, tag: Seq<char>)
    requires
        tag == "markdown"@,
    ensures
        rendered_body(body, declaration_of(tag)) == markdown_html(body),
        resolved_type(declaration_of(tag)) == TransportContentType::TextHtml,
{
    lemma_tags_differ();
}

/// A body under any tag other than `plain` and `markdown` goes out unchanged
/// as `text/html`.
pub proof fn lemma_other_passes_as_html(body: Seq<char>, tag: Seq<char>)
    requires
        tag != "plain"@,
        tag != "markdown"@,
    ensures
        rendered_body(body, declaration_of(tag)) == body,
        resolved_type(declaration_of(tag)) == TransportContentType::TextHtml,
{
}

/// Reading a tag and writing it back gives the tag again.
pub proof fn lemma_tag_round_trip(tag: Seq<char>)
    ensures
        tag_of(declaration_of(tag)) == tag,
{
}

/// The tags `plain`, `markdown` and `html` are three different texts.
pub proof fn lemma_tags_differ()
    ensures
        "plain"@ != "markdown"@,
        "plain"@ != "html"@,
        "markdown"@ != "html"@,
{
    reveal_strlit("plain");
    reveal_strlit("markdown");
    reveal_strlit("html");
    assert("plain"@.len() == 5);
    assert("markdown"@.len() == 8);
    assert("html"@.len() == 4);
}

} // verus!
