//! The markdown event stream: what the tokenizer reads from a body, and what the HTML
//! writer makes of a sequence of events.
//!
//! The rewriting passes only look at headings, text, inline code and fenced code blocks.
//! Those events are held as plain values; every other event of the tokenizer is carried
//! through untouched.
use pulldown_cmark::{CodeBlockKind, CowStr, Event, LinkType, Options, Parser, Tag, TagEnd};
use vstd::prelude::*;

verus! {

/// An event of the tokenizer, opaque to the verifier.
#[verifier::external_type_specification]
#[verifier::external_body]
pub struct ExEvent<'a>(pulldown_cmark::Event<'a>);

/// The heading level of the tokenizer, opaque to the verifier.
#[verifier::external_type_specification]
#[verifier::external_body]
pub struct ExHeadingLevel(pulldown_cmark::HeadingLevel);

/// The tokenizer's string, borrowed or owned; opaque to the verifier.
#[verifier::external_type_specification]
#[verifier::external_body]
pub struct ExCowStr<'a>(pulldown_cmark::CowStr<'a>);

/// The six heading levels.
#[derive(Clone, Copy, Debug, PartialEq, Eq)]
pub enum Level {
    H1,
    H2,
    H3,
    H4,
    H5,
    H6,
}

/// The opening tag of a heading with what the source markup declared on it.
#[derive(Debug, PartialEq)]
pub struct Heading {
    pub level: Level,
    /// The explicit id, where the markup declares one.
    pub id: Option<String>,
    pub classes: Vec<String>,
    /// Further attributes, each a name with an optional value.
    pub attrs: Vec<(String, Option<String>)>,
}

/// The mathematical value of a [`Heading`].
pub struct HeadingView {
    pub level: Level,
    pub id: Option<Seq<char>>,
    pub classes: Seq<Seq<char>>,
    pub attrs: Seq<(Seq<char>, Option<Seq<char>>)>,
}

impl View for Heading {
    type V = HeadingView;

    open spec fn view(&self) -> HeadingView {
        HeadingView {
            level: self.level,
            id: self.id.deep_view(),
            classes: self.classes.deep_view(),
            attrs: self.attrs.deep_view(),
        }
    }
}

/// One event of a markdown stream.
#[derive(Debug, PartialEq)]
pub enum MdEvent<'a> {
    /// A heading opens.
    HeadingStart(Heading),
    /// A heading closes.
    HeadingEnd(Level),
    /// A run of text.
    Text(String),
    /// An inline code span.
    Code(String),
    /// A fenced code block opens; the value is the fence's info string.
    FencedCodeStart(String),
    /// A code block, fenced or indented, closes.
    CodeBlockEnd,
    /// An inline link to `dest_url` opens. The tokenizer's own links stay in `Other`;
    /// this variant is for links that the library adds.
    InlineLinkStart { dest_url: String, title: String },
    /// A link closes. As with `InlineLinkStart`, only the library makes these.
    LinkEnd,
    /// Raw HTML, written to the output as it is.
    Html(String),
    /// Any other event of the tokenizer.
    Other(Event<'a>),
}

/// The mathematical value of an [`MdEvent`].
pub enum MdEventView<'a> {
    HeadingStart(HeadingView),
    HeadingEnd(Level),
    Text(Seq<char>),
    Code(Seq<char>),
    FencedCodeStart(Seq<char>),
    CodeBlockEnd,
    InlineLinkStart { dest_url: Seq<char>, title: Seq<char> },
    LinkEnd,
    Html(Seq<char>),
    Other(Event<'a>),
}

impl<'a> View for MdEvent<'a> {
    type V = MdEventView<'a>;

    open spec fn view(&self) -> MdEventView<'a> {
        match self {
            MdEvent::HeadingStart(heading) => MdEventView::HeadingStart(heading@),
            MdEvent::HeadingEnd(level) => MdEventView::HeadingEnd(*level),
            MdEvent::Text(text) => MdEventView::Text(text@),
            MdEvent::Code(text) => MdEventView::Code(text@),
            MdEvent::FencedCodeStart(info) => MdEventView::FencedCodeStart(info@),
            MdEvent::CodeBlockEnd => MdEventView::CodeBlockEnd,
            MdEvent::InlineLinkStart { dest_url, title } => MdEventView::InlineLinkStart {
                dest_url: dest_url@,
                title: title@,
            },
            MdEvent::LinkEnd => MdEventView::LinkEnd,
            MdEvent::Html(html) => MdEventView::Html(html@),
            MdEvent::Other(event) => MdEventView::Other(*event),
        }
    }
}

/// The values of a sequence of events.
pub open spec fn views<'a>(events: Seq<MdEvent<'a>>) -> Seq<MdEventView<'a>> {
    events.map_values(|event: MdEvent<'a>| event@)
}

/// The tokenizer's extensions to CommonMark that a document may use.
#[derive(Clone, Copy, Debug, PartialEq, Eq)]
pub struct Extensions {
    /// `# title { #id .class }` declares an id and classes on a heading.
    pub heading_attributes: bool,
    /// Straight quotes, dashes and dots become their typographic forms.
    pub smart_punctuation: bool,
    /// A `---` block inside the body is metadata and is not rendered.
    pub metadata_blocks: bool,
}

/// The events that the tokenizer reads from `content` with the given extensions.
pub uninterp spec fn markdown_events(content: Seq<char>, extensions: Extensions) -> Seq<
    MdEventView<'static>,
>;

/// The HTML that the writer produces for a sequence of events.
pub uninterp spec fn events_html(events: Seq<MdEventView<'static>>) -> Seq<char>;

/// Converts the tokenizer's heading level, variant by variant.
#[verifier::external_body]
fn level_from(level: pulldown_cmark::HeadingLevel) -> Level {
    match level {
        pulldown_cmark::HeadingLevel::H1 => Level::H1,
        pulldown_cmark::HeadingLevel::H2 => Level::H2,
        pulldown_cmark::HeadingLevel::H3 => Level::H3,
        pulldown_cmark::HeadingLevel::H4 => Level::H4,
        pulldown_cmark::HeadingLevel::H5 => Level::H5,
        pulldown_cmark::HeadingLevel::H6 => Level::H6,
    }
}

/// Converts a heading level to the tokenizer's, variant by variant.
#[verifier::external_body]
fn level_into(level: Level) -> pulldown_cmark::HeadingLevel {
    match level {
        Level::H1 => pulldown_cmark::HeadingLevel::H1,
        Level::H2 => pulldown_cmark::HeadingLevel::H2,
        Level::H3 => pulldown_cmark::HeadingLevel::H3,
        Level::H4 => pulldown_cmark::HeadingLevel::H4,
        Level::H5 => pulldown_cmark::HeadingLevel::H5,
        Level::H6 => pulldown_cmark::HeadingLevel::H6,
    }
}

/// Converts the fields of the tokenizer's heading tag, one for one.
#[verifier::external_body]
fn heading_from(
    level: pulldown_cmark::HeadingLevel,
    id: Option<CowStr<'_>>,
    classes: Vec<CowStr<'_>>,
    attrs: Vec<(CowStr<'_>, Option<CowStr<'_>>)>,
) -> Heading {
    Heading {
        level: level_from(level),
        id: id.map(CowStr::into_string),
        classes: classes.into_iter().map(CowStr::into_string).collect(),
        attrs: attrs.into_iter().map(|(k, v)| (k.into_string(), v.map(CowStr::into_string))).collect(),
    }
}

/// Converts one event of the tokenizer. A heading tag, a heading's end, text, inline
/// code, the start of a fenced code block, the end of a code block and raw HTML become
/// the variant of the same meaning with their fields moved over; every other event is
/// kept whole in `Other`.
#[verifier::external_body]
fn event_from<'a>(event: Event<'a>) -> MdEvent<'a> {
    match event {
        Event::Start(Tag::Heading { level, id, classes, attrs }) => MdEvent::HeadingStart(heading_from(level, id, classes, attrs)),
        Event::End(TagEnd::Heading(level)) => MdEvent::HeadingEnd(level_from(level)),
        Event::Start(Tag::CodeBlock(CodeBlockKind::Fenced(info))) => MdEvent::FencedCodeStart(info.into_string()),
        Event::End(TagEnd::CodeBlock) => MdEvent::CodeBlockEnd,
        Event::Text(text) => MdEvent::Text(text.into_string()),
        Event::Code(text) => MdEvent::Code(text.into_string()),
        Event::Html(html) => MdEvent::Html(html.into_string()),
        other => MdEvent::Other(other),
    }
}

/// Converts a heading back into the tokenizer's opening tag, field by field.
#[verifier::external_body]
fn heading_into<'a>(heading: &Heading) -> Event<'a> {
    Event::Start(Tag::Heading {
        level: level_into(heading.level),
        id: heading.id.clone().map(CowStr::from),
        classes: heading.classes.iter().cloned().map(CowStr::from).collect(),
        attrs: heading.attrs.iter().cloned().map(|(k, v)| (k.into(), v.map(CowStr::from))).collect(),
    })
}

/// Makes the opening tag of an inline link with no reference label.
#[verifier::external_body]
fn link_into<'a>(dest_url: &String, title: &String) -> Event<'a> {
    Event::Start(Tag::Link {
        link_type: LinkType::Inline,
        dest_url: dest_url.clone().into(),
        title: title.clone().into(),
        id: CowStr::from(""),
    })
}

/// Converts an event back into the tokenizer's, the reverse of `event_from`.
#[verifier::external_body]
fn event_into<'a>(event: &MdEvent<'a>) -> Event<'a> {
    match event {
        MdEvent::HeadingStart(heading) => heading_into(heading),
        MdEvent::HeadingEnd(level) => Event::End(TagEnd::Heading(level_into(*level))),
        MdEvent::Text(text) => Event::Text(text.clone().into()),
        MdEvent::Code(text) => Event::Code(text.clone().into()),
        MdEvent::FencedCodeStart(info) => Event::Start(Tag::CodeBlock(CodeBlockKind::Fenced(info.clone().into()))),
        MdEvent::CodeBlockEnd => Event::End(TagEnd::CodeBlock),
        MdEvent::InlineLinkStart { dest_url, title } => link_into(dest_url, title),
        MdEvent::LinkEnd => Event::End(TagEnd::Link),
        MdEvent::Html(html) => Event::Html(html.clone().into()),
        MdEvent::Other(other) => other.clone(),
    }
}

/// Runs the tokenizer, `pulldown_cmark::Parser::new_ext`, over `content` with the given
/// extensions switched on and collects its events, each converted by `event_from`. The
/// tokenizer accepts every text.
#[verifier::external_body]
pub(crate) fn tokenize<'a>(content: &'a str, extensions: Extensions) -> (events: Vec<MdEvent<'a>>)
    ensures
        views(events@) == markdown_events(content@, extensions),
{
    let mut options = Options::empty();
    options.set(Options::ENABLE_HEADING_ATTRIBUTES, extensions.heading_attributes);
    options.set(Options::ENABLE_SMART_PUNCTUATION, extensions.smart_punctuation);
    options.set(Options::ENABLE_YAML_STYLE_METADATA_BLOCKS, extensions.metadata_blocks);
    Parser::new_ext(content, options).map(event_from).collect()
}

/// Writes the events as HTML with `pulldown_cmark::html::push_html`, after converting
/// each with `event_into`. The writer starts from an empty buffer and accepts every
/// sequence of events.
#[verifier::external_body]
pub(crate) fn write_html<'a>(events: &Vec<MdEvent<'a>>) -> (html: String)
    ensures
        html@ == events_html(views(events@)),
{
    let mut html = String::new();
    pulldown_cmark::html::push_html(&mut html, events.iter().map(event_into));
    html
}

} // verus!
