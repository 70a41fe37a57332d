//! The pass over the event stream that rewrites headings and fenced code.
//!
//! The pass is a state machine that takes one event at a time. While a heading is open
//! it holds every event back; when the heading closes, the whole heading leaves as one
//! piece of raw HTML with an id and a link to itself. Inside a fenced code block it
//! collects the block's text, in however many runs the tokenizer hands it over; when the
//! text ends, it leaves as one piece of highlighted HTML.
use crate::anchor::{heading_id, heading_id_of, heading_markup, synthesize_heading};
use crate::event::{events_html, views, write_html, Heading, HeadingView, Level, MdEvent, MdEventView};
use crate::highlight::{highlight, highlighted, language_token, language_token_of};
use vstd::prelude::*;
use vstd::string::*;

verus! {

/// What is held of a heading while it is open: its opening tag, the text of its text
/// runs and code spans so far, and the events inside it so far.
#[derive(Debug, PartialEq)]
pub struct HeadingState<'a> {
    pub open: Heading,
    pub text: String,
    pub contents: Vec<MdEvent<'a>>,
}

/// The mathematical value of a [`HeadingState`].
pub struct HeadingStateView<'a> {
    pub open: HeadingView,
    pub text: Seq<char>,
    pub contents: Seq<MdEventView<'a>>,
}

impl<'a> View for HeadingState<'a> {
    type V = HeadingStateView<'a>;

    open spec fn view(&self) -> HeadingStateView<'a> {
        HeadingStateView { open: self.open@, text: self.text@, contents: views(self.contents@) }
    }
}

/// What is held of a fenced code block while its text comes in: the language of its
/// fence and the text so far.
#[derive(Debug, PartialEq, Eq)]
pub struct CodeState {
    pub language: String,
    pub text: String,
}

/// The mathematical value of a [`CodeState`].
pub struct CodeStateView {
    pub language: Seq<char>,
    pub text: Seq<char>,
}

impl View for CodeState {
    type V = CodeStateView;

    open spec fn view(&self) -> CodeStateView {
        CodeStateView { language: self.language@, text: self.text@ }
    }
}

/// The state of the pass between two events.
#[derive(Debug, PartialEq)]
pub struct Rewriter<'a> {
    /// The open heading, if the pass stands inside one.
    pub heading: Option<HeadingState<'a>>,
    /// The fenced code block whose text is coming in, if the pass stands inside one.
    pub code: Option<CodeState>,
}

/// The mathematical value of a [`Rewriter`].
pub struct RewriterView<'a> {
    pub heading: Option<HeadingStateView<'a>>,
    pub code: Option<CodeStateView>,
}

/// The value of an optional code block.
pub open spec fn code_view(code: Option<CodeState>) -> Option<CodeStateView> {
    match code {
        Some(code) => Some(code@),
        None => None,
    }
}

impl<'a> View for Rewriter<'a> {
    type V = RewriterView<'a>;

    open spec fn view(&self) -> RewriterView<'a> {
        RewriterView {
            heading: match self.heading {
                Some(held) => Some(held@),
                None => None,
            },
            code: code_view(self.code),
        }
    }
}

/// What becomes of one event.
#[derive(Debug, PartialEq)]
pub enum Step<'a> {
    /// The event is held back, inside an open heading or as text of a code block;
    /// nothing leaves for it.
    Held,
    /// The event leaves unchanged.
    Pass(MdEvent<'a>),
    /// A heading closed: it leaves as one piece of HTML.
    Closed { heading: HeadingState<'a>, end: Level },
    /// A heading closed that was never opened: the stream is not one of a tokenizer.
    Stray(Level),
}

/// The mathematical value of a [`Step`].
pub enum StepView<'a> {
    Held,
    Pass(MdEventView<'a>),
    Closed { heading: HeadingStateView<'a>, end: Level },
    Stray(Level),
}

impl<'a> View for Step<'a> {
    type V = StepView<'a>;

    open spec fn view(&self) -> StepView<'a> {
        match self {
            Step::Held => StepView::Held,
            Step::Pass(event) => StepView::Pass(event@),
            Step::Closed { heading, end } => StepView::Closed { heading: heading@, end: *end },
            Step::Stray(level) => StepView::Stray(*level),
        }
    }
}

/// What one event sets off: the code block whose text the event ended, if it ended one,
/// and what becomes of the event itself.
#[derive(Debug, PartialEq)]
pub struct Turn<'a> {
    /// The code block whose text ended with this event. Its text leaves first.
    pub code: Option<CodeState>,
    pub step: Step<'a>,
}

/// The mathematical value of a [`Turn`].
pub struct TurnView<'a> {
    pub code: Option<CodeStateView>,
    pub step: StepView<'a>,
}

impl<'a> View for Turn<'a> {
    type V = TurnView<'a>;

    open spec fn view(&self) -> TurnView<'a> {
        TurnView { code: code_view(self.code), step: self.step@ }
    }
}

/// Why a stream cannot be rendered. Both are defects of the machinery, not of the
/// document.
#[derive(Clone, Copy, Debug, PartialEq, Eq)]
pub enum Defect {
    /// A heading closed without having been opened.
    StrayHeadingEnd,
    /// The highlighter reported an error, or knows no plain text to fall back on.
    Highlighter,
}

/// The state before the first event: no open heading, no code block.
pub open spec fn start<'a>() -> RewriterView<'a> {
    RewriterView { heading: None, code: None }
}

/// The step inside an open heading. The heading's end closes it; everything else is held
/// back, and text and inline code add to the heading's text.
pub open spec fn step_in_heading<'a>(held: HeadingStateView<'a>, event: MdEventView<'a>) -> (
    Option<HeadingStateView<'a>>,
    StepView<'a>,
) {
    match event {
        MdEventView::HeadingEnd(level) => (None, StepView::Closed { heading: held, end: level }),
        MdEventView::Text(text) => (
            Some(
                HeadingStateView {
                    open: held.open,
                    text: held.text + text,
                    contents: held.contents.push(event),
                },
            ),
            StepView::Held,
        ),
        MdEventView::Code(text) => (
            Some(
                HeadingStateView {
                    open: held.open,
                    text: held.text + text,
                    contents: held.contents.push(event),
                },
            ),
            StepView::Held,
        ),
        _ => (
            Some(
                HeadingStateView {
                    open: held.open,
                    text: held.text,
                    contents: held.contents.push(event),
                },
            ),
            StepView::Held,
        ),
    }
}

/// The step outside headings and code blocks. A heading's start opens the heading; the
/// start of a fenced code block passes and opens the block, with the language that its
/// fence names; a heading's end is stray; everything else passes.
pub open spec fn step_outside<'a>(event: MdEventView<'a>) -> (RewriterView<'a>, StepView<'a>) {
    match event {
        MdEventView::HeadingStart(open) => (
            RewriterView {
                heading: Some(
                    HeadingStateView { open, text: Seq::empty(), contents: Seq::empty() },
                ),
                code: None,
            },
            StepView::Held,
        ),
        MdEventView::HeadingEnd(level) => (start(), StepView::Stray(level)),
        MdEventView::FencedCodeStart(info) => (
            RewriterView {
                heading: None,
                code: Some(
                    CodeStateView { language: language_token_of(info), text: Seq::empty() },
                ),
            },
            StepView::Pass(event),
        ),
        _ => (start(), StepView::Pass(event)),
    }
}

/// The state after an event, and what the event sets off.
///
/// An open heading takes every event. Otherwise an open code block takes text; any
/// other event ends the block's text and is then taken as outside a block.
pub open spec fn step_of<'a>(state: RewriterView<'a>, event: MdEventView<'a>) -> (
    RewriterView<'a>,
    TurnView<'a>,
) {
    match state.heading {
        Some(held) => {
            let (heading, step) = step_in_heading(held, event);
            (RewriterView { heading, code: state.code }, TurnView { code: None, step })
        },
        None => match (state.code, event) {
            (Some(code), MdEventView::Text(text)) => (
                RewriterView {
                    heading: None,
                    code: Some(CodeStateView { language: code.language, text: code.text + text }),
                },
                TurnView { code: None, step: StepView::Held },
            ),
            _ => {
                let (next, step) = step_outside(event);
                (next, TurnView { code: state.code, step })
            },
        },
    }
}

/// The events of the link that a heading with an explicit id gets: an inline link to
/// `#id`, titled with the heading's text, around the text `#`.
pub open spec fn anchor_events<'a>(id: Seq<char>, title: Seq<char>) -> Seq<MdEventView<'a>> {
    seq![
        MdEventView::InlineLinkStart { dest_url: "#"@ + id, title },
        MdEventView::Text("#"@),
        MdEventView::LinkEnd,
    ]
}

/// The HTML of a closed heading.
///
/// With an explicit id the writer renders the opening tag as the source declared it,
/// then the link to the id, then the heading's content, then the closing tag. Without
/// one the id is derived from the heading's text and the tags are written here, with
/// the id and the classes and none of the further attributes, around the same link and
/// content; the closing tag is that of the level the heading opened with.
pub open spec fn closed_heading_html(heading: HeadingStateView<'static>, end: Level) -> Seq<char> {
    match heading.open.id {
        Some(id) => events_html(seq![MdEventView::HeadingStart(heading.open)]) + events_html(
            anchor_events(id, heading.text),
        ) + events_html(heading.contents) + events_html(seq![MdEventView::HeadingEnd(end)]),
        None => heading_markup(
            heading.open.level,
            heading_id_of(heading.text),
            heading.open.classes,
            events_html(heading.contents),
        ),
    }
}

/// What leaves the pass for the text of a code block: the whole text as one piece of
/// highlighted HTML; nothing for a block without text.
pub open spec fn code_events<'a>(code: Option<CodeStateView>) -> Result<
    Seq<MdEventView<'a>>,
    Defect,
> {
    match code {
        None => Ok(Seq::empty()),
        Some(code) => if code.text.len() == 0 {
            Ok(Seq::empty())
        } else {
            match highlighted(code.language, code.text) {
                Some(html) => Ok(seq![MdEventView::Html(html)]),
                None => Err(Defect::Highlighter),
            }
        },
    }
}

/// What leaves the pass for the event itself.
pub open spec fn step_events(step: StepView<'static>) -> Result<Seq<MdEventView<'static>>, Defect> {
    match step {
        StepView::Held => Ok(Seq::empty()),
        StepView::Pass(event) => Ok(seq![event]),
        StepView::Closed { heading, end } => Ok(
            seq![MdEventView::Html(closed_heading_html(heading, end))],
        ),
        StepView::Stray(_) => Err(Defect::StrayHeadingEnd),
    }
}

/// The events of an outcome behind a prefix.
pub open spec fn after<'a>(
    prefix: Seq<MdEventView<'a>>,
    outcome: Result<Seq<MdEventView<'a>>, Defect>,
) -> Result<Seq<MdEventView<'a>>, Defect> {
    match outcome {
        Ok(rest) => Ok(prefix + rest),
        Err(defect) => Err(defect),
    }
}

/// What leaves the pass after one event: first the text of the code block that the event
/// ended, then what becomes of the event; or the first defect met.
pub open spec fn emitted(turn: TurnView<'static>) -> Result<Seq<MdEventView<'static>>, Defect> {
    match code_events(turn.code) {
        Ok(code) => after(code, step_events(turn.step)),
        Err(defect) => Err(defect),
    }
}

/// The events that leave the pass when it runs from `state` over `events`, or the first
/// defect it meets. What is still held at the end of the stream does not leave.
pub open spec fn rewritten_from(state: RewriterView<'static>, events: Seq<MdEventView<'static>>) -> Result<
    Seq<MdEventView<'static>>,
    Defect,
>
    decreases events.len(),
{
    if events.len() == 0 {
        Ok(Seq::empty())
    } else {
        let (next, turn) = step_of(state, events[0]);
        match emitted(turn) {
            Ok(out) => after(out, rewritten_from(next, events.drop_first())),
            Err(defect) => Err(defect),
        }
    }
}

/// The rewritten stream of a whole document.
pub open spec fn rewritten(events: Seq<MdEventView<'static>>) -> Result<
    Seq<MdEventView<'static>>,
    Defect,
> {
    rewritten_from(start(), events)
}

/// The events of a heading that holds one run of text.
pub open spec fn plain_heading<'a>(open: HeadingView, text: Seq<char>, end: Level) -> Seq<
    MdEventView<'a>,
> {
    seq![MdEventView::HeadingStart(open), MdEventView::Text(text), MdEventView::HeadingEnd(end)]
}

/// The events of a fenced code block whose text comes in two runs.
pub open spec fn split_code_block<'a>(info: Seq<char>, first: Seq<char>, second: Seq<char>) -> Seq<
    MdEventView<'a>,
> {
    seq![
        MdEventView::FencedCodeStart(info),
        MdEventView::Text(first),
        MdEventView::Text(second),
        MdEventView::CodeBlockEnd,
    ]
}

/// While a heading is open nothing leaves the pass: every event but the heading's end
/// is held back, and the heading stays open.
pub proof fn lemma_open_heading_holds_back(state: RewriterView<'static>, event: MdEventView<'static>)
    requires
        state.heading is Some,
        !(event is HeadingEnd),
    ensures
        emitted(step_of(state, event).1) == Ok::<Seq<MdEventView<'static>>, Defect>(Seq::empty()),
        step_of(state, event).0.heading is Some,
        step_of(state, event).0.code == state.code,
{
    let turn = step_of(state, event).1;
    assert(turn.step == StepView::<'static>::Held);
    assert(Seq::<MdEventView<'static>>::empty() + Seq::<MdEventView<'static>>::empty()
        =~= Seq::<MdEventView<'static>>::empty());
}

/// When a heading closes, nothing of it stays in the state, and all that was held
/// leaves in the one step.
pub proof fn lemma_heading_end_clears(state: RewriterView<'static>, end: Level)
    requires
        state.heading is Some,
    ensures
        step_of(state, MdEventView::HeadingEnd(end)).0.heading is None,
        step_of(state, MdEventView::HeadingEnd(end)).1.step == (StepView::Closed {
            heading: state.heading->0,
            end,
        }),
{
}

/// A heading without an explicit id leaves the pass as one piece of HTML whose id is
/// derived from the heading's own text, whatever the pass has seen before.
pub proof fn lemma_heading_id_from_own_text(
    state: RewriterView<'static>,
    open: HeadingView,
    text: Seq<char>,
    end: Level,
)
    requires
        state.heading is None,
        state.code is None,
        open.id is None,
    ensures
        rewritten_from(state, plain_heading(open, text, end)) == Ok::<
            Seq<MdEventView<'static>>,
            Defect,
        >(
            seq![
                MdEventView::Html(
                    heading_markup(
                        open.level,
                        heading_id_of(text),
                        open.classes,
                        events_html(seq![MdEventView::Text(text)]),
                    ),
                ),
            ],
        ),
{
    let nothing = Seq::<MdEventView<'static>>::empty();
    let events = plain_heading::<'static>(open, text, end);
    let second = events.drop_first();
    let third = second.drop_first();
    assert(third.drop_first() =~= nothing);
    let (opened, first_turn) = step_of(state, events[0]);
    let (filled, second_turn) = step_of(opened, second[0]);
    let (closed, third_turn) = step_of(filled, third[0]);
    let held = HeadingStateView::<'static> {
        open,
        text: Seq::<char>::empty() + text,
        contents: nothing.push(MdEventView::Text(text)),
    };
    assert(held.text =~= text);
    assert(held.contents =~= seq![MdEventView::Text(text)]);
    assert(third_turn.step == StepView::Closed { heading: held, end });
    let html = MdEventView::<'static>::Html(closed_heading_html(held, end));
    assert(nothing + nothing =~= nothing);
    assert(nothing + seq![html] =~= seq![html]);
    assert(seq![html] + nothing =~= seq![html]);
    assert(emitted(first_turn) == Ok::<Seq<MdEventView<'static>>, Defect>(nothing));
    assert(emitted(second_turn) == Ok::<Seq<MdEventView<'static>>, Defect>(nothing));
    assert(emitted(third_turn) == Ok::<Seq<MdEventView<'static>>, Defect>(seq![html]));
    assert(rewritten_from(closed, third.drop_first()) == Ok::<Seq<MdEventView<'static>>, Defect>(
        nothing,
    ));
    assert(rewritten_from(filled, third) == Ok::<Seq<MdEventView<'static>>, Defect>(seq![html]));
    assert(rewritten_from(opened, second) == Ok::<Seq<MdEventView<'static>>, Defect>(seq![html]));
}

/// Two headings with the same text and no explicit id get the same id: the second
/// repeats the markup of the first, wherever the two stand. The ids of a document are
/// not made unique.
pub proof fn lemma_repeated_heading_repeats_id(
    first: RewriterView<'static>,
    second: RewriterView<'static>,
    open: HeadingView,
    text: Seq<char>,
    end: Level,
)
    requires
        first.heading is None,
        first.code is None,
        second.heading is None,
        second.code is None,
        open.id is None,
    ensures
        rewritten_from(first, plain_heading(open, text, end)) == rewritten_from(
            second,
            plain_heading(open, text, end),
        ),
{
    lemma_heading_id_from_own_text(first, open, text, end);
    lemma_heading_id_from_own_text(second, open, text, end);
}

/// The text of a fenced code block is highlighted as a whole, in however many runs it
/// comes: two runs leave as the one piece that their joined text leaves as.
pub proof fn lemma_code_block_is_highlighted_whole(
    info: Seq<char>,
    first: Seq<char>,
    second: Seq<char>,
)
    requires
        first.len() + second.len() > 0,
    ensures
        rewritten(split_code_block(info, first, second)) == match highlighted(
            language_token_of(info),
            first + second,
        ) {
            Some(html) => Ok::<Seq<MdEventView<'static>>, Defect>(
                seq![
                    MdEventView::FencedCodeStart(info),
                    MdEventView::Html(html),
                    MdEventView::CodeBlockEnd,
                ],
            ),
            None => Err::<Seq<MdEventView<'static>>, Defect>(Defect::Highlighter),
        },
{
    let nothing = Seq::<MdEventView<'static>>::empty();
    let events = split_code_block::<'static>(info, first, second);
    let second_on = events.drop_first();
    let third_on = second_on.drop_first();
    let fourth_on = third_on.drop_first();
    assert(fourth_on.drop_first() =~= nothing);
    let (opened, first_turn) = step_of(start(), events[0]);
    let (half, second_turn) = step_of(opened, second_on[0]);
    let (full, third_turn) = step_of(half, third_on[0]);
    let (closed, fourth_turn) = step_of(full, fourth_on[0]);
    let language = language_token_of(info);
    assert(Seq::<char>::empty() + first + second =~= first + second);
    assert(fourth_turn.code == Some(CodeStateView { language, text: first + second }));
    assert(fourth_turn.step == StepView::<'static>::Pass(MdEventView::CodeBlockEnd));
    assert(nothing + nothing =~= nothing);
    assert(emitted(second_turn) == Ok::<Seq<MdEventView<'static>>, Defect>(nothing));
    assert(emitted(third_turn) == Ok::<Seq<MdEventView<'static>>, Defect>(nothing));
    let start_event = seq![MdEventView::<'static>::FencedCodeStart(info)];
    let end_event = seq![MdEventView::<'static>::CodeBlockEnd];
    assert(nothing + start_event =~= start_event);
    assert(emitted(first_turn) == Ok::<Seq<MdEventView<'static>>, Defect>(start_event));
    assert(rewritten_from(closed, fourth_on.drop_first()) == Ok::<
        Seq<MdEventView<'static>>,
        Defect,
    >(nothing));
    match highlighted(language, first + second) {
        Some(html) => {
            let piece = seq![MdEventView::<'static>::Html(html)];
            assert(emitted(fourth_turn) == Ok::<Seq<MdEventView<'static>>, Defect>(
                piece + end_event,
            ));
            assert(piece + end_event + nothing =~= piece + end_event);
            assert(nothing + (piece + end_event) =~= piece + end_event);
            assert(rewritten_from(full, fourth_on) == Ok::<Seq<MdEventView<'static>>, Defect>(
                piece + end_event,
            ));
            assert(rewritten_from(half, third_on) == Ok::<Seq<MdEventView<'static>>, Defect>(
                piece + end_event,
            ));
            assert(rewritten_from(opened, second_on) == Ok::<Seq<MdEventView<'static>>, Defect>(
                piece + end_event,
            ));
            assert(start_event + (piece + end_event) =~= seq![
                MdEventView::FencedCodeStart(info),
                MdEventView::Html(html),
                MdEventView::CodeBlockEnd,
            ]);
        },
        None => {
            assert(emitted(fourth_turn) == Err::<Seq<MdEventView<'static>>, Defect>(
                Defect::Highlighter,
            ));
        },
    }
}

/// The value of what `emit` and `rewrite` return.
pub open spec fn outcome<'a>(out: Result<Vec<MdEvent<'a>>, Defect>) -> Result<
    Seq<MdEventView<'a>>,
    Defect,
> {
    match out {
        Ok(events) => Ok(views(events@)),
        Err(defect) => Err(defect),
    }
}

impl<'a> Rewriter<'a> {
    /// The pass before its first event.
    pub fn new() -> (state: Self)
        ensures
            state@ == start::<'a>(),
    {
        Rewriter { heading: None, code: None }
    }

    /// Takes one event.
    pub fn step(self, event: MdEvent<'a>) -> (next: (Self, Turn<'a>))
        ensures
            (next.0@, next.1@) == step_of(self@, event@),
    {
        let Rewriter { heading, code } = self;
        match heading {
            Some(held) => {
                let (heading, step) = step_held(held, event);
                (Rewriter { heading, code }, Turn { code: None, step })
            },
            None => match (code, event) {
                (Some(block), MdEvent::Text(run)) => {
                    let CodeState { language, mut text } = block;
                    text.append(run.as_str());
                    (
                        Rewriter { heading: None, code: Some(CodeState { language, text }) },
                        Turn { code: None, step: Step::Held },
                    )
                },
                (code, event) => {
                    let (next, step) = step_free(event);
                    (next, Turn { code, step })
                },
            },
        }
    }
}

/// Takes one event inside an open heading.
fn step_held<'a>(held: HeadingState<'a>, event: MdEvent<'a>) -> (next: (
    Option<HeadingState<'a>>,
    Step<'a>,
))
    ensures
        (
            match next.0 {
                Some(held) => Some(held@),
                None => None,
            },
            next.1@,
        ) == step_in_heading(held@, event@),
{
    let HeadingState { open, mut text, mut contents } = held;
    let ghost before = views(contents@);
    match event {
        MdEvent::HeadingEnd(level) => (
            None,
            Step::Closed { heading: HeadingState { open, text, contents }, end: level },
        ),
        MdEvent::Text(run) => {
            text.append(run.as_str());
            contents.push(MdEvent::Text(run));
            assert(views(contents@) =~= before.push(event@));
            (Some(HeadingState { open, text, contents }), Step::Held)
        },
        MdEvent::Code(run) => {
            text.append(run.as_str());
            contents.push(MdEvent::Code(run));
            assert(views(contents@) =~= before.push(event@));
            (Some(HeadingState { open, text, contents }), Step::Held)
        },
        other => {
            contents.push(other);
            assert(views(contents@) =~= before.push(event@));
            (Some(HeadingState { open, text, contents }), Step::Held)
        },
    }
}

/// Takes one event outside headings and code blocks.
fn step_free<'a>(event: MdEvent<'a>) -> (next: (Rewriter<'a>, Step<'a>))
    ensures
        (next.0@, next.1@) == step_outside(event@),
{
    match event {
        MdEvent::HeadingStart(open) => {
            let contents: Vec<MdEvent<'a>> = Vec::new();
            assert(views(contents@) =~= Seq::empty());
            (
                Rewriter {
                    heading: Some(HeadingState { open, text: String::new(), contents }),
                    code: None,
                },
                Step::Held,
            )
        },
        MdEvent::HeadingEnd(level) => (Rewriter { heading: None, code: None }, Step::Stray(level)),
        MdEvent::FencedCodeStart(info) => {
            let language = language_token(info.as_str());
            (
                Rewriter {
                    heading: None,
                    code: Some(CodeState { language, text: String::new() }),
                },
                Step::Pass(MdEvent::FencedCodeStart(info)),
            )
        },
        other => (Rewriter { heading: None, code: None }, Step::Pass(other)),
    }
}

/// Makes the link that a heading with an explicit id gets.
pub fn h_anchor<'a>(id: &str, title: String) -> (anchor: Vec<MdEvent<'a>>)
    ensures
        views(anchor@) == anchor_events::<'a>(id@, title@),
{
    let mut dest_url = String::from_str("#");
    dest_url.append(id);
    let mut anchor: Vec<MdEvent<'a>> = Vec::new();
    anchor.push(MdEvent::InlineLinkStart { dest_url, title });
    anchor.push(MdEvent::Text(String::from_str("#")));
    anchor.push(MdEvent::LinkEnd);
    assert(views(anchor@) =~= anchor_events::<'a>(id@, title@));
    anchor
}

/// Renders a closed heading.
pub fn render_heading(heading: HeadingState<'_>, end: Level) -> (html: String)
    ensures
        html@ == closed_heading_html(heading@, end),
{
    let HeadingState { open, text, contents } = heading;
    match &open.id {
        Some(id) => {
            let anchor = h_anchor(id.as_str(), text);
            let mut close: Vec<MdEvent<'_>> = Vec::new();
            close.push(MdEvent::HeadingEnd(end));
            assert(views(close@) =~= seq![MdEventView::HeadingEnd(end)]);
            let ghost declared = open@;
            let mut tag: Vec<MdEvent<'_>> = Vec::new();
            tag.push(MdEvent::HeadingStart(open));
            assert(views(tag@) =~= seq![MdEventView::HeadingStart(declared)]);
            let mut html = write_html(&tag);
            html.append(write_html(&anchor).as_str());
            html.append(write_html(&contents).as_str());
            html.append(write_html(&close).as_str());
            html
        },
        None => {
            let id = heading_id(text.as_str());
            let inner = write_html(&contents);
            synthesize_heading(open.level, id.as_str(), &open.classes, inner.as_str())
        },
    }
}

/// What leaves the pass for a block's code, given what the highlighter made of it: the
/// markup as one piece of raw HTML, or the defect where the highlighter failed.
pub fn highlighted_event<'a>(html: Option<String>) -> (out: Result<Vec<MdEvent<'a>>, Defect>)
    ensures
        outcome(out) == match html {
            Some(html) => Ok::<Seq<MdEventView<'a>>, Defect>(seq![MdEventView::Html(html@)]),
            None => Err::<Seq<MdEventView<'a>>, Defect>(Defect::Highlighter),
        },
{
    match html {
        Some(html) => {
            let mut out: Vec<MdEvent<'a>> = Vec::new();
            out.push(MdEvent::Html(html));
            assert(views(out@) =~= seq![MdEventView::Html(html@)]);
            Ok(out)
        },
        None => Err(Defect::Highlighter),
    }
}

/// Highlights the text of a code block that ended.
pub fn render_code<'a>(code: Option<CodeState>) -> (out: Result<Vec<MdEvent<'a>>, Defect>)
    ensures
        outcome(out) == code_events::<'a>(code_view(code)),
{
    match code {
        Some(block) => {
            if block.text.as_str().is_empty() {
                let out: Vec<MdEvent<'a>> = Vec::new();
                assert(views(out@) =~= Seq::empty());
                Ok(out)
            } else {
                highlighted_event(highlight(block.language.as_str(), block.text.as_str()))
            }
        },
        None => {
            let out: Vec<MdEvent<'a>> = Vec::new();
            assert(views(out@) =~= Seq::empty());
            Ok(out)
        },
    }
}

/// Turns what an event set off into what leaves the pass: highlights the code that the
/// event ended, renders a closed heading, and reports a failed highlighter or a stray
/// heading end.
pub fn emit<'a>(turn: Turn<'a>) -> (out: Result<Vec<MdEvent<'a>>, Defect>)
    ensures
        outcome(out) == emitted(turn@),
{
    let Turn { code, step } = turn;
    let mut out = match render_code(code) {
        Ok(out) => out,
        Err(defect) => {
            return Err(defect);
        },
    };
    let ghost before = views(out@);
    match step {
        Step::Held => {
            assert(before + Seq::<MdEventView<'a>>::empty() =~= before);
        },
        Step::Pass(event) => {
            out.push(event);
            assert(views(out@) =~= before + seq![event@]);
        },
        Step::Closed { heading, end } => {
            let html = render_heading(heading, end);
            out.push(MdEvent::Html(html));
            assert(views(out@) =~= before + seq![MdEventView::Html(html@)]);
        },
        Step::Stray(_) => {
            return Err(Defect::StrayHeadingEnd);
        },
    }
    Ok(out)
}

/// Runs the pass over a whole stream.
///
/// Returns the rewritten stream, or the first defect: a heading end outside any heading,
/// or an error of the highlighter.
pub fn rewrite<'a>(events: Vec<MdEvent<'a>>) -> (out: Result<Vec<MdEvent<'a>>, Defect>)
    ensures
        outcome(out) == rewritten(views(events@)),
{
    let ghost all = views(events@);
    let ghost source = events@;
    let mut state = Rewriter::new();
    let mut out: Vec<MdEvent<'a>> = Vec::new();
    assert(after(views(out@), rewritten_from(state@, all.skip(0))) == rewritten(all)) by {
        assert(all.skip(0) =~= all);
        assert(views(out@) =~= Seq::empty());
        match rewritten(all) {
            Ok(rest) => {
                assert(Seq::<MdEventView<'a>>::empty() + rest =~= rest);
            },
            Err(_) => {},
        }
    }
    for event in it: events
        invariant
            it.seq() == source,
            all == views(source),
            after(views(out@), rewritten_from(state@, all.skip(it.index() as int))) == rewritten(
                all,
            ),
    {
        let ghost i = it.index() as int;
        let ghost before = views(out@);
        let ghost tail = all.skip(i);
        assert(tail.len() > 0 && tail[0] == event@ && tail.drop_first() =~= all.skip(i + 1));
        let (next, turn) = state.step(event);
        state = next;
        match emit(turn) {
            Err(defect) => {
                return Err(defect);
            },
            Ok(mut pieces) => {
                let ghost added = views(pieces@);
                out.append(&mut pieces);
                proof {
                    assert(views(out@) =~= before + added);
                    match rewritten_from(state@, all.skip(i + 1)) {
                        Ok(rest) => {
                            assert(before + (added + rest) =~= (before + added) + rest);
                        },
                        Err(_) => {},
                    }
                }
            },
        }
    }
    proof {
        assert(all.skip(all.len() as int) =~= Seq::empty());
        assert(views(out@) + Seq::<MdEventView<'a>>::empty() =~= views(out@));
    }
    Ok(out)
}

} // verus!
