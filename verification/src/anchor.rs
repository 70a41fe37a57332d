//! Heading ids and the markup of a heading that links to itself.
//!
//! A heading without an explicit id gets one derived from its text. The id depends on
//! that text alone: two headings with the same text get the same id, wherever they stand
//! in a document, and nothing is appended to tell them apart.
use crate::event::Level;
use crate::text::{lower, occurs_at};
use vstd::prelude::*;
use vstd::string::*;

verus! {

/// What a character of a heading's text contributes to the id: ASCII letters in lower
/// case, digits as they are, a hyphen for a space or a period, nothing for the rest.
pub open spec fn slug_char(c: char) -> Option<char> {
    if ('a' <= c && c <= 'z') || ('0' <= c && c <= '9') {
        Some(c)
    } else if 'A' <= c && c <= 'Z' {
        Some(lower(c))
    } else if c == ' ' || c == '.' {
        Some('-')
    } else {
        None
    }
}

/// The id derived from a heading's text.
pub open spec fn heading_id_of(text: Seq<char>) -> Seq<char> {
    text.filter_map(|c: char| slug_char(c))
}

/// The characters an id is made of: lowercase ASCII letters, digits and the hyphen.
pub open spec fn is_id_char(c: char) -> bool {
    ('a' <= c && c <= 'z') || ('0' <= c && c <= '9') || c == '-'
}

/// Every character of a derived id is a lowercase ASCII letter, a digit or a hyphen.
pub proof fn lemma_heading_id_alphabet(text: Seq<char>)
    ensures
        forall|i: int|
            0 <= i < heading_id_of(text).len() ==> is_id_char(#[trigger] heading_id_of(text)[i]),
{
    let id = heading_id_of(text);
    assert forall|i: int| 0 <= i < id.len() implies is_id_char(#[trigger] id[i]) by {
        text.lemma_filter_map_contains(|c: char| slug_char(c), id[i]);
    }
}

fn slug_of_char(c: char) -> (out: Option<char>)
    ensures
        out == slug_char(c),
{
    if ('a' <= c && c <= 'z') || ('0' <= c && c <= '9') {
        Some(c)
    } else if 'A' <= c && c <= 'Z' {
        Some(((c as u8) + 32) as char)
    } else if c == ' ' || c == '.' {
        Some('-')
    } else {
        None
    }
}

/// Derives a heading's id from its text.
pub fn heading_id(text: &str) -> (id: String)
    ensures
        id@ == heading_id_of(text@),
        forall|i: int| 0 <= i < id@.len() ==> is_id_char(#[trigger] id@[i]),
{
    let mut id = String::new();
    for c in it: text.chars()
        invariant
            it.seq() == text@,
            id@ == it.seq().take(it.index() as int).filter_map(|c: char| slug_char(c)),
    {
        proof {
            text@.lemma_filter_map_take_succ(|c: char| slug_char(c), it.index() as int);
        }
        match slug_of_char(c) {
            Some(mapped) => {
                id.push(mapped);
            },
            None => {},
        }
    }
    proof {
        assert(text@.take(text@.len() as int) == text@);
        lemma_heading_id_alphabet(text@);
    }
    id
}

/// The tag name of a heading level.
pub open spec fn level_name(level: Level) -> Seq<char> {
    match level {
        Level::H1 => "h1"@,
        Level::H2 => "h2"@,
        Level::H3 => "h3"@,
        Level::H4 => "h4"@,
        Level::H5 => "h5"@,
        Level::H6 => "h6"@,
    }
}

/// The tag name of a heading level.
pub fn level_tag(level: Level) -> (name: &'static str)
    ensures
        name@ == level_name(level),
{
    match level {
        Level::H1 => "h1",
        Level::H2 => "h2",
        Level::H3 => "h3",
        Level::H4 => "h4",
        Level::H5 => "h5",
        Level::H6 => "h6",
    }
}

/// The classes of a heading as they stand in its `class` attribute: each followed by a
/// space.
pub open spec fn class_list(classes: Seq<Seq<char>>) -> Seq<char>
    decreases classes.len(),
{
    if classes.len() == 0 {
        Seq::empty()
    } else {
        class_list(classes.drop_last()) + classes.last() + " "@
    }
}

/// The `href` attribute of a link to the element with the given id.
pub open spec fn href_attribute(id: Seq<char>) -> Seq<char> {
    "href=\"#"@ + id + "\""@
}

/// The link by which a heading points at itself: an anchor to `#id` with the text `#`.
pub open spec fn self_link(id: Seq<char>) -> Seq<char> {
    "<a "@ + href_attribute(id) + ">#</a>"@
}

/// The opening tag of a heading with the given id and classes.
pub open spec fn heading_open_tag(level: Level, id: Seq<char>, classes: Seq<Seq<char>>) -> Seq<
    char,
> {
    "<"@ + level_name(level) + " id=\""@ + id + "\""@ + if classes.len() == 0 {
        ">"@
    } else {
        " class=\""@ + class_list(classes) + "\">"@
    }
}

/// The markup of a whole heading: the opening tag, the link to itself, the heading's
/// rendered content, the closing tag.
pub open spec fn heading_markup(
    level: Level,
    id: Seq<char>,
    classes: Seq<Seq<char>>,
    inner: Seq<char>,
) -> Seq<char> {
    heading_open_tag(level, id, classes) + self_link(id) + inner + "</"@ + level_name(level)
        + ">"@
}

/// The id that a heading's opening tag declares is the id that its link points at: the
/// markup holds the link's `href` to `#id`, right behind the opening tag.
pub proof fn lemma_heading_links_to_itself(
    level: Level,
    id: Seq<char>,
    classes: Seq<Seq<char>>,
    inner: Seq<char>,
)
    ensures
        occurs_at(
            heading_markup(level, id, classes, inner),
            href_attribute(id),
            (heading_open_tag(level, id, classes).len() + "<a "@.len()) as int,
        ),
{
    let at = (heading_open_tag(level, id, classes).len() + "<a "@.len()) as int;
    let href = href_attribute(id);
    assert(heading_markup(level, id, classes, inner).subrange(at, at + href.len()) =~= href);
}

fn push_classes(out: &mut String, classes: &Vec<String>)
    ensures
        final(out)@ == old(out)@ + class_list(classes.deep_view()),
{
    let ghost all = classes.deep_view();
    let mut i: usize = 0;
    while i < classes.len()
        invariant
            i <= classes.len(),
            all == classes.deep_view(),
            out@ == old(out)@ + class_list(all.take(i as int)),
        decreases classes.len() - i,
    {
        out.append(classes[i].as_str());
        out.append(" ");
        assert(all.take(i + 1).drop_last() == all.take(i as int));
        i = i + 1;
    }
    assert(all.take(classes.len() as int) == all);
}

/// Writes the markup of a heading with a derived id: the opening tag with the id and the
/// classes, the link to `#id`, the content, and the closing tag.
pub fn synthesize_heading(level: Level, id: &str, classes: &Vec<String>, inner: &str) -> (markup:
    String)
    ensures
        markup@ == heading_markup(level, id@, classes.deep_view(), inner@),
{
    let name = level_tag(level);
    let mut out = String::new();
    out.append("<");
    out.append(name);
    out.append(" id=\"");
    out.append(id);
    out.append("\"");
    if classes.len() == 0 {
        out.append(">");
    } else {
        out.append(" class=\"");
        push_classes(&mut out, classes);
        out.append("\">");
    }
    out.append("<a ");
    out.append("href=\"#");
    out.append(id);
    out.append("\"");
    out.append(">#</a>");
    out.append(inner);
    out.append("</");
    out.append(name);
    out.append(">");
    out
}

} // verus!
