use docrender::event::{Heading, Level, MdEvent};
use docrender::rewrite::{
    emit, h_anchor, highlighted_event, render_code, render_heading, rewrite, CodeState, Defect,
    HeadingState, Rewriter, Step, Turn,
};

fn heading(level: Level, id: Option<&str>, classes: &[&str]) -> Heading {
    Heading {
        level,
        id: id.map(|id| id.to_string()),
        classes: classes.iter().map(|class| class.to_string()).collect(),
        attrs: vec![],
    }
}

fn text(run: &str) -> MdEvent<'static> {
    MdEvent::Text(run.to_string())
}

fn code(language: &str, text: &str) -> CodeState {
    CodeState { language: language.to_string(), text: text.to_string() }
}

fn plain(step: Step<'static>) -> Turn<'static> {
    Turn { code: None, step }
}

#[test]
fn new_pass_stands_outside_everything() {
    assert_eq!(Rewriter::new(), Rewriter { heading: None, code: None });
}

#[test]
fn heading_start_opens_a_heading_and_is_held() {
    let (state, turn) = Rewriter::new().step(MdEvent::HeadingStart(heading(Level::H2, None, &[])));
    assert_eq!(turn, plain(Step::Held));
    assert_eq!(
        state,
        Rewriter {
            heading: Some(HeadingState {
                open: heading(Level::H2, None, &[]),
                text: String::new(),
                contents: vec![],
            }),
            code: None,
        }
    );
}

#[test]
fn events_inside_a_heading_are_held_and_text_and_code_add_to_its_text() {
    let state = Rewriter::new();
    let (state, _) = state.step(MdEvent::HeadingStart(heading(Level::H1, None, &[])));
    let (state, first) = state.step(text("Sub "));
    let (state, second) = state.step(MdEvent::Code("code".to_string()));
    let (state, third) = state.step(MdEvent::Html("<b>".to_string()));
    let (state, fourth) = state.step(MdEvent::FencedCodeStart("rust".to_string()));
    let (state, fifth) = state.step(MdEvent::HeadingStart(heading(Level::H3, None, &[])));
    assert_eq!(first, plain(Step::Held));
    assert_eq!(second, plain(Step::Held));
    assert_eq!(third, plain(Step::Held));
    assert_eq!(fourth, plain(Step::Held));
    assert_eq!(fifth, plain(Step::Held));
    let held = state.heading.expect("the heading is open");
    assert_eq!(held.text, "Sub code");
    assert_eq!(
        held.contents,
        vec![
            text("Sub "),
            MdEvent::Code("code".to_string()),
            MdEvent::Html("<b>".to_string()),
            MdEvent::FencedCodeStart("rust".to_string()),
            MdEvent::HeadingStart(heading(Level::H3, None, &[])),
        ]
    );
    assert_eq!(state.code, None);
}

#[test]
fn heading_end_closes_the_heading_and_clears_the_state() {
    let state = Rewriter::new();
    let (state, _) = state.step(MdEvent::HeadingStart(heading(Level::H1, None, &["a"])));
    let (state, _) = state.step(text("Title"));
    let (state, turn) = state.step(MdEvent::HeadingEnd(Level::H1));
    assert_eq!(state, Rewriter { heading: None, code: None });
    assert_eq!(
        turn,
        plain(Step::Closed {
            heading: HeadingState {
                open: heading(Level::H1, None, &["a"]),
                text: "Title".to_string(),
                contents: vec![text("Title")],
            },
            end: Level::H1,
        })
    );
}

#[test]
fn heading_end_outside_a_heading_is_stray() {
    let (state, turn) = Rewriter::new().step(MdEvent::HeadingEnd(Level::H3));
    assert_eq!(turn, plain(Step::Stray(Level::H3)));
    assert_eq!(state, Rewriter::new());
    assert_eq!(emit(turn), Err(Defect::StrayHeadingEnd));
}

#[test]
fn fence_opens_a_block_with_its_language_and_passes() {
    let (state, turn) = Rewriter::new().step(MdEvent::FencedCodeStart("rust linenos".to_string()));
    assert_eq!(turn, plain(Step::Pass(MdEvent::FencedCodeStart("rust linenos".to_string()))));
    assert_eq!(state, Rewriter { heading: None, code: Some(code("rust", "")) });
}

#[test]
fn text_of_a_code_block_is_collected_run_by_run() {
    let state = Rewriter { heading: None, code: Some(code("rust", "")) };
    let (state, first) = state.step(text("fn a() {}\n"));
    assert_eq!(first, plain(Step::Held));
    assert_eq!(state.code, Some(code("rust", "fn a() {}\n")));
    let (state, second) = state.step(text("fn b() {}\n"));
    assert_eq!(second, plain(Step::Held));
    assert_eq!(state.code, Some(code("rust", "fn a() {}\nfn b() {}\n")));
    assert_eq!(state.heading, None);
}

#[test]
fn end_of_a_code_block_hands_the_collected_text_on_and_passes() {
    let state = Rewriter { heading: None, code: Some(code("rust", "fn a() {}\n")) };
    let (state, turn) = state.step(MdEvent::CodeBlockEnd);
    assert_eq!(
        turn,
        Turn { code: Some(code("rust", "fn a() {}\n")), step: Step::Pass(MdEvent::CodeBlockEnd) }
    );
    assert_eq!(state, Rewriter::new());
}

#[test]
fn any_event_but_text_ends_the_text_of_a_code_block() {
    let state = Rewriter { heading: None, code: Some(code("js", "x")) };
    let (state, turn) = state.step(MdEvent::Html("<hr>".to_string()));
    assert_eq!(
        turn,
        Turn { code: Some(code("js", "x")), step: Step::Pass(MdEvent::Html("<hr>".to_string())) }
    );
    assert_eq!(state, Rewriter::new());

    let state = Rewriter { heading: None, code: Some(code("js", "x")) };
    let (state, turn) = state.step(MdEvent::FencedCodeStart("py".to_string()));
    assert_eq!(
        turn,
        Turn {
            code: Some(code("js", "x")),
            step: Step::Pass(MdEvent::FencedCodeStart("py".to_string())),
        }
    );
    assert_eq!(state, Rewriter { heading: None, code: Some(code("py", "")) });
}

#[test]
fn end_of_an_indented_code_block_passes() {
    let (state, turn) = Rewriter::new().step(MdEvent::CodeBlockEnd);
    assert_eq!(turn, plain(Step::Pass(MdEvent::CodeBlockEnd)));
    assert_eq!(state, Rewriter::new());
}

#[test]
fn text_outside_headings_and_code_passes() {
    let (state, turn) = Rewriter::new().step(text("plain"));
    assert_eq!(turn, plain(Step::Pass(text("plain"))));
    assert_eq!(state, Rewriter::new());
}

#[test]
fn code_block_stays_open_while_a_heading_is_open() {
    let state = Rewriter {
        heading: Some(HeadingState {
            open: heading(Level::H1, None, &[]),
            text: String::new(),
            contents: vec![],
        }),
        code: Some(code("js", "x")),
    };
    let (state, turn) = state.step(text("t"));
    assert_eq!(turn, plain(Step::Held));
    assert_eq!(state.code, Some(code("js", "x")));
    assert_eq!(state.heading.expect("the heading is open").text, "t");
}

#[test]
fn emit_of_held_and_pass() {
    assert_eq!(emit(plain(Step::Held)), Ok(vec![]));
    assert_eq!(emit(plain(Step::Pass(text("x")))), Ok(vec![text("x")]));
}

#[test]
fn emit_puts_the_code_before_the_event() {
    let turn = Turn { code: Some(code("none", "1 < 2")), step: Step::Pass(MdEvent::CodeBlockEnd) };
    assert_eq!(
        emit(turn),
        Ok(vec![MdEvent::Html("1 &lt; 2".to_string()), MdEvent::CodeBlockEnd])
    );
}

#[test]
fn emit_of_a_block_without_text_is_the_event_alone() {
    let turn = Turn { code: Some(code("rust", "")), step: Step::Pass(MdEvent::CodeBlockEnd) };
    assert_eq!(emit(turn), Ok(vec![MdEvent::CodeBlockEnd]));
}

#[test]
fn render_code_highlights_the_collected_text() {
    assert_eq!(render_code(None), Ok(vec![]));
    assert_eq!(render_code(Some(code("rust", ""))), Ok(vec![]));
    assert_eq!(
        render_code(Some(code("unknown", "a > b"))),
        Ok(vec![MdEvent::Html("a &gt; b".to_string())])
    );
}

#[test]
fn highlighted_event_of_markup_and_of_a_failure() {
    assert_eq!(
        highlighted_event(Some("<span>x</span>".to_string())),
        Ok(vec![MdEvent::Html("<span>x</span>".to_string())])
    );
    assert_eq!(highlighted_event(None), Err(Defect::Highlighter));
}

#[test]
fn anchor_of_a_heading_with_an_id() {
    assert_eq!(
        h_anchor("custom", "Title".to_string()),
        vec![
            MdEvent::InlineLinkStart { dest_url: "#custom".to_string(), title: "Title".to_string() },
            text("#"),
            MdEvent::LinkEnd,
        ]
    );
}

#[test]
fn closed_heading_without_id_gets_a_derived_id() {
    let held = HeadingState {
        open: heading(Level::H2, None, &["wide", "tall"]),
        text: "Hello World".to_string(),
        contents: vec![text("Hello "), MdEvent::Code("World".to_string())],
    };
    assert_eq!(
        render_heading(held, Level::H2),
        "<h2 id=\"hello-world\" class=\"wide tall \"><a href=\"#hello-world\">#</a>Hello <code>World</code></h2>"
    );
}

#[test]
fn closed_heading_without_id_closes_with_the_level_it_opened_with() {
    let held = HeadingState {
        open: heading(Level::H2, None, &[]),
        text: "T".to_string(),
        contents: vec![text("T")],
    };
    assert_eq!(render_heading(held, Level::H5), "<h2 id=\"t\"><a href=\"#t\">#</a>T</h2>");
}

#[test]
fn closed_heading_with_id_keeps_it_and_links_to_it() {
    let held = HeadingState {
        open: heading(Level::H1, Some("custom"), &["big"]),
        text: "Title".to_string(),
        contents: vec![text("Title")],
    };
    assert_eq!(
        render_heading(held, Level::H1),
        "<h1 id=\"custom\" class=\"big\"><a href=\"#custom\" title=\"Title\">#</a>Title</h1>\n"
    );
}

#[test]
fn closed_heading_with_id_and_no_text_has_an_untitled_link() {
    let held = HeadingState {
        open: heading(Level::H4, Some("bare"), &[]),
        text: String::new(),
        contents: vec![],
    };
    assert_eq!(render_heading(held, Level::H4), "<h4 id=\"bare\"><a href=\"#bare\">#</a></h4>\n");
}

#[test]
fn stream_with_a_heading_and_a_code_block() {
    let events = vec![
        MdEvent::HeadingStart(heading(Level::H1, None, &[])),
        text("Intro"),
        MdEvent::HeadingEnd(Level::H1),
        MdEvent::FencedCodeStart("none".to_string()),
        text("a & b\n"),
        MdEvent::CodeBlockEnd,
        text("after"),
    ];
    assert_eq!(
        rewrite(events),
        Ok(vec![
            MdEvent::Html("<h1 id=\"intro\"><a href=\"#intro\">#</a>Intro</h1>".to_string()),
            MdEvent::FencedCodeStart("none".to_string()),
            MdEvent::Html("a &amp; b\n".to_string()),
            MdEvent::CodeBlockEnd,
            text("after"),
        ])
    );
}

#[test]
fn code_in_several_runs_is_highlighted_as_one() {
    let in_runs = vec![
        MdEvent::FencedCodeStart("rust".to_string()),
        text("fn ma"),
        text("in() {"),
        text("}\n"),
        MdEvent::CodeBlockEnd,
    ];
    let in_one = vec![
        MdEvent::FencedCodeStart("rust".to_string()),
        text("fn main() {}\n"),
        MdEvent::CodeBlockEnd,
    ];
    let rewritten = rewrite(in_runs).expect("the stream is sound");
    assert_eq!(rewritten.len(), 3);
    assert_eq!(Ok(rewritten), rewrite(in_one));
}

#[test]
fn stream_without_events_is_empty() {
    assert_eq!(rewrite(vec![]), Ok(vec![]));
}

#[test]
fn heading_that_never_closes_leaves_nothing() {
    let events = vec![
        text("before"),
        MdEvent::HeadingStart(heading(Level::H1, None, &[])),
        text("lost"),
    ];
    assert_eq!(rewrite(events), Ok(vec![text("before")]));
}

#[test]
fn stream_with_a_stray_heading_end_is_refused() {
    let events = vec![
        MdEvent::HeadingStart(heading(Level::H1, None, &[])),
        text("a"),
        MdEvent::HeadingEnd(Level::H1),
        MdEvent::HeadingEnd(Level::H1),
        text("b"),
    ];
    assert_eq!(rewrite(events), Err(Defect::StrayHeadingEnd));
}

#[test]
fn heading_state_does_not_leak_into_the_next_heading() {
    let events = vec![
        MdEvent::HeadingStart(heading(Level::H1, None, &["first"])),
        text("One"),
        MdEvent::HeadingEnd(Level::H1),
        MdEvent::HeadingStart(heading(Level::H2, None, &[])),
        text("Two"),
        MdEvent::HeadingEnd(Level::H2),
    ];
    assert_eq!(
        rewrite(events),
        Ok(vec![
            MdEvent::Html(
                "<h1 id=\"one\" class=\"first \"><a href=\"#one\">#</a>One</h1>".to_string()
            ),
            MdEvent::Html("<h2 id=\"two\"><a href=\"#two\">#</a>Two</h2>".to_string()),
        ])
    );
}
