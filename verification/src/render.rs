//! The rendering pipeline: from a markdown body to HTML that is safe to embed.
//!
//! The body is tokenized, the stream goes through the heading and code pass, the writer
//! turns it into HTML, and the sanitizer has the last word.
use crate::event::{events_html, markdown_events, tokenize, views, write_html, Extensions, MdEvent, MdEventView};
use crate::rewrite::{rewrite, rewritten, Defect};
use crate::sanitize::{safe_markup, sanitize, SafeHtml};
use vstd::prelude::*;

verus! {

/// The extensions that documents are tokenized with: attributes on headings, smart
/// punctuation, and metadata blocks in the body.
pub open spec fn document_extensions() -> Extensions {
    Extensions { heading_attributes: true, smart_punctuation: true, metadata_blocks: true }
}

/// The safe HTML of a stream of events: the stream rewritten, written as HTML and
/// sanitized; or the defect that the rewriting met.
pub open spec fn safe_html(events: Seq<MdEventView<'static>>) -> Result<Seq<char>, Defect> {
    match rewritten(events) {
        Ok(out) => Ok(safe_markup(events_html(out))),
        Err(defect) => Err(defect),
    }
}

/// The safe HTML of a markdown body.
pub open spec fn rendered(content: Seq<char>) -> Result<Seq<char>, Defect> {
    safe_html(markdown_events(content, document_extensions()))
}

/// The value of what the rendering functions return.
pub open spec fn html_outcome(out: Result<SafeHtml, Defect>) -> Result<Seq<char>, Defect> {
    match out {
        Ok(html) => Ok(html@),
        Err(defect) => Err(defect),
    }
}

/// Renders a stream of events into safe HTML.
pub fn render_events<'a>(events: Vec<MdEvent<'a>>) -> (out: Result<SafeHtml, Defect>)
    ensures
        html_outcome(out) == safe_html(views(events@)),
{
    match rewrite(events) {
        Ok(rewritten) => {
            let unsafe_html = write_html(&rewritten);
            Ok(sanitize(unsafe_html.as_str()))
        },
        Err(defect) => Err(defect),
    }
}

/// Renders a markdown body into safe HTML.
///
/// The result is an error only for a defect of the machinery: a token stream in which a
/// heading closes that never opened, or a highlighter that fails.
pub fn render_markdown(content: &str) -> (out: Result<SafeHtml, Defect>)
    ensures
        html_outcome(out) == rendered(content@),
{
    let extensions = Extensions {
        heading_attributes: true,
        smart_punctuation: true,
        metadata_blocks: true,
    };
    render_events(tokenize(content, extensions))
}

} // verus!
