use docrender::anchor::{heading_id, level_tag, synthesize_heading};
use docrender::event::Level;

#[test]
fn heading_id_of_two_words() {
    assert_eq!(heading_id("Hello World"), "hello-world");
}

#[test]
fn heading_id_lowers_capitals_and_keeps_digits() {
    assert_eq!(heading_id("Chapter 12B"), "chapter-12b");
}

#[test]
fn heading_id_maps_periods_to_hyphens() {
    assert_eq!(heading_id("v1.2.3 notes."), "v1-2-3-notes-");
}

#[test]
fn heading_id_drops_everything_else() {
    assert_eq!(heading_id("What's new, really?"), "whats-new-really");
    assert_eq!(heading_id("caf\u{e9} \u{2014} menu_1"), "caf--menu1");
}

#[test]
fn heading_id_of_nothing_is_empty() {
    assert_eq!(heading_id(""), "");
    assert_eq!(heading_id("!?#"), "");
}

#[test]
fn heading_id_holds_only_small_letters_digits_and_hyphens() {
    let id = heading_id("A.B c-D\te/F 9~Z\u{df}\u{130}");
    assert_eq!(id, "a-b-cdef-9z");
    assert!(id.chars().all(|c| c.is_ascii_lowercase() || c.is_ascii_digit() || c == '-'));
}

#[test]
fn repeated_heading_text_repeats_the_id() {
    assert_eq!(heading_id("Setup"), heading_id("Setup"));
    assert_eq!(heading_id("Setup"), "setup");
}

#[test]
fn level_tags() {
    assert_eq!(level_tag(Level::H1), "h1");
    assert_eq!(level_tag(Level::H2), "h2");
    assert_eq!(level_tag(Level::H3), "h3");
    assert_eq!(level_tag(Level::H4), "h4");
    assert_eq!(level_tag(Level::H5), "h5");
    assert_eq!(level_tag(Level::H6), "h6");
}

#[test]
fn synthesized_heading_without_classes() {
    let markup = synthesize_heading(Level::H1, "hello-world", &vec![], "Hello World");
    assert_eq!(
        markup,
        "<h1 id=\"hello-world\"><a href=\"#hello-world\">#</a>Hello World</h1>"
    );
}

#[test]
fn synthesized_heading_with_classes() {
    let classes = vec!["big".to_string(), "red".to_string()];
    let markup = synthesize_heading(Level::H3, "x", &classes, "<em>X</em>");
    assert_eq!(
        markup,
        "<h3 id=\"x\" class=\"big red \"><a href=\"#x\">#</a><em>X</em></h3>"
    );
}

#[test]
fn synthesized_heading_links_to_its_own_id() {
    let id = heading_id("Getting Started");
    let markup = synthesize_heading(Level::H2, &id, &vec![], "Getting Started");
    assert!(markup.contains(&format!("id=\"{}\"", id)));
    assert!(markup.contains(&format!("href=\"#{}\"", id)));
}
