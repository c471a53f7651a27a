//! Markdown rendering of assistant output into styled lines: the events of a
//! CommonMark parse (with strikethrough and task lists) drive a small
//! renderer that keeps lists, code blocks and emphasis readable in a terminal.
use vstd::prelude::*;

use crate::auth::oauth_chatgpt::{lemma_newline_pos_is, newline_pos};
use crate::text::{chars_of, decimal, owned, string_of, u64_decimal};

verus! {

#[verifier::external_type_specification]
#[verifier::external_body]
pub struct ExMarkdownEvent<'a>(pulldown_cmark::Event<'a>);

#[verifier::external_type_specification]
#[verifier::external_body]
pub struct ExMarkdownTag<'a>(pulldown_cmark::Tag<'a>);

#[verifier::external_type_specification]
#[verifier::external_body]
pub struct ExMarkdownTagEnd(pulldown_cmark::TagEnd);

/// Terminal colors the renderer and the history view use.
#[derive(Debug, Clone, Copy, PartialEq, Eq, Structural)]
pub enum Color {
    Yellow,
    Cyan,
    Green,
    Blue,
    Gray,
    DarkGray,
    White,
}

/// A text style: an optional foreground color and three modifiers.
#[derive(Debug, Clone, Copy, Default, PartialEq, Eq, Structural)]
pub struct TextStyle {
    pub fg: Option<Color>,
    pub bold: bool,
    pub italic: bool,
    pub crossed_out: bool,
}

impl TextStyle {
    /// The style without color or modifiers.
    pub fn plain() -> (r: Self)
        ensures
            r == (TextStyle { fg: None, bold: false, italic: false, crossed_out: false }),
    {
        TextStyle { fg: None, bold: false, italic: false, crossed_out: false }
    }

    /// This style with another foreground color.
    pub fn with_fg(self, color: Color) -> (r: Self)
        ensures
            r == (TextStyle { fg: Some(color), ..self }),
    {
        TextStyle { fg: Some(color), ..self }
    }

    /// This style, bold.
    pub fn with_bold(self) -> (r: Self)
        ensures
            r == (TextStyle { bold: true, ..self }),
    {
        TextStyle { bold: true, ..self }
    }
}

/// A run of text in one style.
#[derive(Debug, Clone, PartialEq, Eq)]
pub struct StyledSpan {
    pub content: String,
    pub style: TextStyle,
}

impl StyledSpan {
    /// A copy of this span.
    pub fn duplicate(&self) -> (r: Self)
        ensures
            r == *self,
    {
        StyledSpan { content: self.content.clone(), style: self.style }
    }
}

/// A line of styled spans.
#[derive(Debug, Clone, PartialEq, Eq)]
pub struct StyledLine {
    pub spans: Vec<StyledSpan>,
}

pub open spec fn span_view(s: StyledSpan) -> (Seq<char>, TextStyle) {
    (s.content@, s.style)
}

pub open spec fn spans_view(s: Seq<StyledSpan>) -> Seq<(Seq<char>, TextStyle)> {
    Seq::new(s.len(), |i: int| span_view(s[i]))
}

pub open spec fn lines_view(l: Seq<StyledLine>) -> Seq<Seq<(Seq<char>, TextStyle)>> {
    Seq::new(l.len(), |i: int| spans_view(l[i].spans@))
}

/// The opening tags the renderer reacts to.
#[derive(Debug, Clone, Copy, PartialEq, Eq, Structural)]
pub enum MdTag {
    Heading,
    CodeBlock,
    /// A list, numbered from the given start when ordered.
    List(Option<u64>),
    Item,
    Emphasis,
    Strong,
    Strikethrough,
    Other,
}

/// The closing tags the renderer reacts to.
#[derive(Debug, Clone, Copy, PartialEq, Eq, Structural)]
pub enum MdTagEnd {
    Paragraph,
    Heading,
    CodeBlock,
    List,
    Item,
    Emphasis,
    Strong,
    Strikethrough,
    Other,
}

/// A Markdown parse event.
#[derive(Debug, Clone, PartialEq, Eq)]
pub enum MdEvent {
    Start(MdTag),
    End(MdTagEnd),
    Text(String),
    Code(String),
    SoftBreak,
    HardBreak,
    Rule,
    TaskListMarker(bool),
    Other,
}

/// A Markdown parse event, with its text as a character sequence.
pub enum MdEventView {
    Start(MdTag),
    End(MdTagEnd),
    Text(Seq<char>),
    Code(Seq<char>),
    SoftBreak,
    HardBreak,
    Rule,
    TaskListMarker(bool),
    Other,
}

pub open spec fn event_view(e: MdEvent) -> MdEventView {
    match e {
        MdEvent::Start(t) => MdEventView::Start(t),
        MdEvent::End(t) => MdEventView::End(t),
        MdEvent::Text(s) => MdEventView::Text(s@),
        MdEvent::Code(s) => MdEventView::Code(s@),
        MdEvent::SoftBreak => MdEventView::SoftBreak,
        MdEvent::HardBreak => MdEventView::HardBreak,
        MdEvent::Rule => MdEventView::Rule,
        MdEvent::TaskListMarker(b) => MdEventView::TaskListMarker(b),
        MdEvent::Other => MdEventView::Other,
    }
}

pub open spec fn events_view(e: Seq<MdEvent>) -> Seq<MdEventView> {
    Seq::new(e.len(), |i: int| event_view(e[i]))
}

/// The events of `pulldown_cmark::Parser::new_ext` with strikethrough and
/// task lists enabled, in order, each reduced to what the renderer reads.
pub uninterp spec fn markdown_events(text: Seq<char>) -> Seq<MdEventView>;

/// An opening tag of the parser, reduced to what the renderer reads.
#[verifier::external_body]
fn md_tag(tag: pulldown_cmark::Tag<'_>) -> MdTag {
    match tag {
        pulldown_cmark::Tag::Heading { .. } => MdTag::Heading,
        pulldown_cmark::Tag::CodeBlock(_) => MdTag::CodeBlock,
        pulldown_cmark::Tag::List(start) => MdTag::List(start),
        pulldown_cmark::Tag::Item => MdTag::Item,
        pulldown_cmark::Tag::Emphasis => MdTag::Emphasis,
        pulldown_cmark::Tag::Strong => MdTag::Strong,
        pulldown_cmark::Tag::Strikethrough => MdTag::Strikethrough,
        _ => MdTag::Other,
    }
}

/// A closing tag of the parser, reduced to what the renderer reads.
#[verifier::external_body]
fn md_tag_end(tag: pulldown_cmark::TagEnd) -> MdTagEnd {
    match tag {
        pulldown_cmark::TagEnd::Paragraph => MdTagEnd::Paragraph,
        pulldown_cmark::TagEnd::Heading(_) => MdTagEnd::Heading,
        pulldown_cmark::TagEnd::CodeBlock => MdTagEnd::CodeBlock,
        pulldown_cmark::TagEnd::List(_) => MdTagEnd::List,
        pulldown_cmark::TagEnd::Item => MdTagEnd::Item,
        pulldown_cmark::TagEnd::Emphasis => MdTagEnd::Emphasis,
        pulldown_cmark::TagEnd::Strong => MdTagEnd::Strong,
        pulldown_cmark::TagEnd::Strikethrough => MdTagEnd::Strikethrough,
        _ => MdTagEnd::Other,
    }
}

/// An event of the parser, reduced to what the renderer reads.
#[verifier::external_body]
fn md_event(event: pulldown_cmark::Event<'_>) -> MdEvent {
    match event {
        pulldown_cmark::Event::Start(tag) => MdEvent::Start(md_tag(tag)),
        pulldown_cmark::Event::End(tag) => MdEvent::End(md_tag_end(tag)),
        pulldown_cmark::Event::Text(text) => MdEvent::Text(text.to_string()),
        pulldown_cmark::Event::Code(text) => MdEvent::Code(text.to_string()),
        pulldown_cmark::Event::SoftBreak => MdEvent::SoftBreak,
        pulldown_cmark::Event::HardBreak => MdEvent::HardBreak,
        pulldown_cmark::Event::Rule => MdEvent::Rule,
        pulldown_cmark::Event::TaskListMarker(checked) => MdEvent::TaskListMarker(checked),
        _ => MdEvent::Other,
    }
}

/// Parses Markdown with `pulldown_cmark` (strikethrough and task lists on).
#[verifier::external_body]
fn parse_markdown(text: &str) -> (r: Vec<MdEvent>)
    ensures
        events_view(r@) == markdown_events(text@),
{
    let options = pulldown_cmark::Options::ENABLE_STRIKETHROUGH
        | pulldown_cmark::Options::ENABLE_TASKLISTS;
    pulldown_cmark::Parser::new_ext(text, options).map(md_event).collect()
}

// ---------------------------------------------------------------------------
// The renderer, as a state machine over parse events
// ---------------------------------------------------------------------------

pub type SpanView = (Seq<char>, TextStyle);

/// The renderer's state: the finished lines, the spans of the line being
/// built, the base style, the nesting of emphasis, strong, strikethrough and
/// headings, the code-block flags, the open lists (their next number when
/// ordered) and the continuation indent of each open list item.
pub struct RenderView {
    pub lines: Seq<Seq<SpanView>>,
    pub current: Seq<SpanView>,
    pub base: TextStyle,
    pub emphasis: nat,
    pub strong: nat,
    pub strike: nat,
    pub heading: nat,
    pub in_code_block: bool,
    pub code_prefix_pending: bool,
    pub lists: Seq<Option<u64>>,
    pub items: Seq<Seq<char>>,
}

pub open spec fn initial_view(base: TextStyle) -> RenderView {
    RenderView {
        lines: seq![],
        current: seq![],
        base,
        emphasis: 0,
        strong: 0,
        strike: 0,
        heading: 0,
        in_code_block: false,
        code_prefix_pending: false,
        lists: seq![],
        items: seq![],
    }
}

pub open spec fn plain_style() -> TextStyle {
    TextStyle { fg: None, bold: false, italic: false, crossed_out: false }
}

pub open spec fn list_marker_style() -> TextStyle {
    TextStyle { fg: Some(Color::DarkGray), bold: true, ..plain_style() }
}

pub open spec fn rule_style() -> TextStyle {
    TextStyle { fg: Some(Color::DarkGray), ..plain_style() }
}

pub open spec fn inline_code_style(base: TextStyle) -> TextStyle {
    TextStyle { fg: Some(Color::Yellow), bold: true, ..base }
}

pub open spec fn code_block_style(base: TextStyle) -> TextStyle {
    TextStyle { fg: Some(Color::Yellow), ..base }
}

/// The style of ordinary text: bold inside headings and strong emphasis,
/// italic inside emphasis, crossed out inside strikethrough.
pub open spec fn text_style(s: RenderView) -> TextStyle {
    TextStyle {
        fg: s.base.fg,
        bold: s.base.bold || s.heading > 0 || s.strong > 0,
        italic: s.base.italic || s.emphasis > 0,
        crossed_out: s.base.crossed_out || s.strike > 0,
    }
}

pub open spec fn flush(s: RenderView) -> RenderView {
    RenderView { lines: s.lines.push(s.current), current: seq![], ..s }
}

pub open spec fn flush_if_non_empty(s: RenderView) -> RenderView {
    if s.current.len() == 0 {
        s
    } else {
        flush(s)
    }
}

/// An empty line after a block, unless inside a list item or right after an
/// empty line (or at the start).
pub open spec fn block_gap(s: RenderView) -> RenderView {
    if s.items.len() > 0 {
        s
    } else if s.lines.len() > 0 && s.lines.last().len() > 0 {
        RenderView { lines: s.lines.push(seq![]), ..s }
    } else {
        s
    }
}

pub open spec fn push_span(s: RenderView, text: Seq<char>, style: TextStyle) -> RenderView {
    RenderView { current: s.current.push((text, style)), ..s }
}

/// After a line break inside a list item, the item's indent continues it.
pub open spec fn continuation(s: RenderView) -> RenderView {
    if s.items.len() > 0 && s.items.last().len() > 0 {
        push_span(s, s.items.last(), plain_style())
    } else {
        s
    }
}

pub open spec fn line_break(s: RenderView) -> RenderView {
    let f = flush(s);
    if s.in_code_block {
        RenderView { code_prefix_pending: true, ..f }
    } else {
        continuation(f)
    }
}

/// Text in a style, broken into lines at each `\n`.
pub open spec fn styled_text(s: RenderView, text: Seq<char>, style: TextStyle) -> RenderView
    decreases text.len(),
{
    let k = newline_pos(text) as int;
    if k < text.len() {
        let s1 = if k > 0 {
            push_span(s, text.take(k), style)
        } else {
            s
        };
        styled_text(line_break(s1), text.skip(k + 1), style)
    } else if text.len() > 0 {
        push_span(s, text, style)
    } else {
        s
    }
}

/// Code-block text: every line starts with a four-space indent.
pub open spec fn code_text(s: RenderView, text: Seq<char>, style: TextStyle) -> RenderView
    decreases text.len(),
{
    let s1 = if s.code_prefix_pending {
        RenderView { current: s.current.push(("    "@, style)), code_prefix_pending: false, ..s }
    } else {
        s
    };
    let k = newline_pos(text) as int;
    if k < text.len() {
        let s2 = if k > 0 {
            push_span(s1, text.take(k), style)
        } else {
            s1
        };
        code_text(RenderView { code_prefix_pending: true, ..flush(s2) }, text.skip(k + 1), style)
    } else if text.len() > 0 {
        push_span(s1, text, style)
    } else {
        s1
    }
}

pub open spec fn spaces(n: nat) -> Seq<char> {
    Seq::new(n, |i: int| ' ')
}

/// The marker of the next item of the innermost list, and the list state
/// after it: `N. ` for ordered lists (counting up), `- ` otherwise.
pub open spec fn next_marker(s: RenderView) -> (Seq<char>, RenderView) {
    if s.lists.len() == 0 {
        ("- "@, s)
    } else {
        match s.lists.last() {
            Some(n) => (
                decimal(n as nat) + ". "@,
                RenderView {
                    lists: s.lists.update(
                        s.lists.len() - 1,
                        Some(if n == u64::MAX { n } else { (n + 1) as u64 }),
                    ),
                    ..s
                },
            ),
            None => ("- "@, s),
        }
    }
}

/// Starts a list item: its marker, indented two spaces per enclosing list,
/// and the blank indent that continues its later lines.
pub open spec fn start_item(s: RenderView) -> RenderView {
    let s0 = if s.current.len() > 0 {
        flush(s)
    } else {
        s
    };
    let depth: nat = if s0.lists.len() > 0 { (s0.lists.len() - 1) as nat } else { 0 };
    let (marker, s1) = next_marker(s0);
    let prefix = spaces(2 * depth) + marker;
    RenderView {
        current: s1.current.push((prefix, list_marker_style())),
        items: s1.items.push(spaces(prefix.len())),
        ..s1
    }
}

pub open spec fn rule_line() -> Seq<char> {
    seq!['─', '─', '─', '─', '─', '─', '─', '─']
}

pub open spec fn push_rule(s: RenderView) -> RenderView {
    block_gap(flush_if_non_empty(push_span(flush_if_non_empty(s), rule_line(), rule_style())))
}

pub open spec fn dec(n: nat) -> nat {
    if n > 0 {
        (n - 1) as nat
    } else {
        0
    }
}

/// One event applied to the renderer.
pub open spec fn step(s: RenderView, e: MdEventView) -> RenderView {
    match e {
        MdEventView::Start(tag) => match tag {
            MdTag::Heading => RenderView { heading: flush_if_non_empty(s).heading + 1, ..flush_if_non_empty(s) },
            MdTag::CodeBlock => RenderView {
                in_code_block: true,
                code_prefix_pending: true,
                ..flush_if_non_empty(s)
            },
            MdTag::List(start) => RenderView {
                lists: s.lists.push(start),
                ..flush_if_non_empty(s)
            },
            MdTag::Item => start_item(s),
            MdTag::Emphasis => RenderView { emphasis: s.emphasis + 1, ..s },
            MdTag::Strong => RenderView { strong: s.strong + 1, ..s },
            MdTag::Strikethrough => RenderView { strike: s.strike + 1, ..s },
            MdTag::Other => s,
        },
        MdEventView::End(tag) => match tag {
            MdTagEnd::Paragraph => block_gap(flush_if_non_empty(s)),
            MdTagEnd::Heading => block_gap(flush_if_non_empty(RenderView { heading: dec(s.heading), ..s })),
            MdTagEnd::CodeBlock => block_gap(
                flush_if_non_empty(RenderView { in_code_block: false, code_prefix_pending: false, ..s }),
            ),
            MdTagEnd::List => {
                let f = flush_if_non_empty(s);
                block_gap(
                    RenderView {
                        lists: if f.lists.len() > 0 { f.lists.drop_last() } else { f.lists },
                        ..f
                    },
                )
            },
            MdTagEnd::Item => {
                let f = flush_if_non_empty(s);
                RenderView { items: if f.items.len() > 0 { f.items.drop_last() } else { f.items }, ..f }
            },
            MdTagEnd::Emphasis => RenderView { emphasis: dec(s.emphasis), ..s },
            MdTagEnd::Strong => RenderView { strong: dec(s.strong), ..s },
            MdTagEnd::Strikethrough => RenderView { strike: dec(s.strike), ..s },
            MdTagEnd::Other => s,
        },
        MdEventView::Text(t) => if t.len() == 0 {
            s
        } else if s.in_code_block {
            code_text(s, t, code_block_style(s.base))
        } else {
            styled_text(s, t, text_style(s))
        },
        MdEventView::Code(t) => styled_text(s, t, inline_code_style(s.base)),
        MdEventView::SoftBreak => line_break(s),
        MdEventView::HardBreak => line_break(s),
        MdEventView::Rule => push_rule(s),
        MdEventView::TaskListMarker(checked) => styled_text(
            s,
            if checked { "[x] "@ } else { "[ ] "@ },
            list_marker_style(),
        ),
        MdEventView::Other => s,
    }
}

pub open spec fn run_events(s: RenderView, events: Seq<MdEventView>) -> RenderView
    decreases events.len(),
{
    if events.len() == 0 {
        s
    } else {
        step(run_events(s, events.drop_last()), events.last())
    }
}

/// `lines` without trailing lines that have no spans.
pub open spec fn trim_empty_tail(lines: Seq<Seq<SpanView>>) -> Seq<Seq<SpanView>>
    decreases lines.len(),
{
    if lines.len() > 0 && lines.last().len() == 0 {
        trim_empty_tail(lines.drop_last())
    } else {
        lines
    }
}

pub open spec fn finish(s: RenderView) -> Seq<Seq<SpanView>> {
    trim_empty_tail(flush_if_non_empty(s).lines)
}

proof fn lemma_trim_empty_tail(lines: Seq<Seq<SpanView>>)
    ensures
        trim_empty_tail(lines).len() > 0 ==> trim_empty_tail(lines).last().len() > 0,
        trim_empty_tail(lines).len() <= lines.len(),
    decreases lines.len(),
{
    if lines.len() > 0 && lines.last().len() == 0 {
        lemma_trim_empty_tail(lines.drop_last());
    }
}

/// Rendered Markdown never ends with an empty line.
pub proof fn law_render_ends_with_content(text: Seq<char>, base: TextStyle)
    ensures
        spec_render(text, base).len() > 0 ==> spec_render(text, base).last().len() > 0,
{
    lemma_trim_empty_tail(flush_if_non_empty(run_events(initial_view(base), markdown_events(text))).lines);
}

/// The styled lines of rendered Markdown.
pub open spec fn spec_render(text: Seq<char>, base: TextStyle) -> Seq<Seq<SpanView>> {
    finish(run_events(initial_view(base), markdown_events(text)))
}

/// What a step keeps: the base style, the nesting, the code-block flag and
/// the open lists and items.
pub open spec fn same_frame(a: RenderView, b: RenderView) -> bool {
    &&& a.base == b.base
    &&& a.emphasis == b.emphasis
    &&& a.strong == b.strong
    &&& a.strike == b.strike
    &&& a.heading == b.heading
    &&& a.in_code_block == b.in_code_block
    &&& a.lists == b.lists
    &&& a.items == b.items
}

proof fn lemma_styled_text_frame(s: RenderView, text: Seq<char>, style: TextStyle)
    ensures
        same_frame(styled_text(s, text, style), s),
    decreases text.len(),
{
    let k = newline_pos(text) as int;
    if k < text.len() {
        let s1 = if k > 0 {
            push_span(s, text.take(k), style)
        } else {
            s
        };
        lemma_styled_text_frame(line_break(s1), text.skip(k + 1), style);
    }
}

proof fn lemma_code_text_frame(s: RenderView, text: Seq<char>, style: TextStyle)
    ensures
        same_frame(code_text(s, text, style), s),
    decreases text.len(),
{
    let s1 = if s.code_prefix_pending {
        RenderView { current: s.current.push(("    "@, style)), code_prefix_pending: false, ..s }
    } else {
        s
    };
    let k = newline_pos(text) as int;
    if k < text.len() {
        let s2 = if k > 0 {
            push_span(s1, text.take(k), style)
        } else {
            s1
        };
        lemma_code_text_frame(
            RenderView { code_prefix_pending: true, ..flush(s2) },
            text.skip(k + 1),
            style,
        );
    }
}

/// A step raises each nesting counter by at most one and pushes at most one
/// list or item.
proof fn lemma_step_bounds(s: RenderView, e: MdEventView)
    ensures
        step(s, e).emphasis <= s.emphasis + 1,
        step(s, e).strong <= s.strong + 1,
        step(s, e).strike <= s.strike + 1,
        step(s, e).heading <= s.heading + 1,
        step(s, e).lists.len() <= s.lists.len() + 1,
        step(s, e).items.len() <= s.items.len() + 1,
        step(s, e).base == s.base,
{
    match e {
        MdEventView::Text(t) => {
            if t.len() > 0 {
                if s.in_code_block {
                    lemma_code_text_frame(s, t, code_block_style(s.base));
                } else {
                    lemma_styled_text_frame(s, t, text_style(s));
                }
            }
        },
        MdEventView::Code(t) => {
            lemma_styled_text_frame(s, t, inline_code_style(s.base));
        },
        MdEventView::TaskListMarker(checked) => {
            lemma_styled_text_frame(s, if checked { "[x] "@ } else { "[ ] "@ }, list_marker_style());
        },
        _ => {},
    }
}

/// Text without a line break is pushed as one span.
proof fn lemma_single_line_text(s: RenderView, text: Seq<char>, style: TextStyle)
    requires
        text.len() > 0,
        !text.contains('\n'),
    ensures
        styled_text(s, text, style) == push_span(s, text, style),
{
    assert forall|i: int| 0 <= i < text.len() implies #[trigger] text[i] != '\n' by {
        if text[i] == '\n' {
            assert(text.contains('\n'));
        }
    }
    lemma_newline_pos_is(text, text.len());
}

/// A task-list marker shows the item's box: once the marker is rendered, the
/// output ends with `[x] ` when the item is checked and with `[ ] ` when it is
/// not, in the list-marker style.
pub proof fn law_task_marker_renders_its_box(
    text: Seq<char>,
    base: TextStyle,
    before: Seq<MdEventView>,
    checked: bool,
)
    requires
        markdown_events(text) == before.push(MdEventView::TaskListMarker(checked)),
    ensures
        spec_render(text, base).len() > 0,
        spec_render(text, base).last().last() == (
            if checked { "[x] "@ } else { "[ ] "@ },
            list_marker_style(),
        ),
{
    reveal_strlit("[x] ");
    reveal_strlit("[ ] ");
    let evs = markdown_events(text);
    let marker: Seq<char> = if checked { "[x] "@ } else { "[ ] "@ };
    assert(evs.drop_last() =~= before);
    let s = run_events(initial_view(base), before);
    assert(marker.len() == 4);
    assert(marker.contains(marker[0]));
    lemma_single_line_text(s, marker, list_marker_style());
    let r = run_events(initial_view(base), evs);
    assert(r == push_span(s, marker, list_marker_style()));
    assert(r.current.len() > 0);
    let lines = flush_if_non_empty(r).lines;
    assert(lines.last() == r.current);
    assert(trim_empty_tail(lines) == lines);
}

/// A single task item renders as one line: the bullet, the item's box
/// (`[x] ` when checked, `[ ] ` when not), both in the list-marker style, and
/// the item's text in the base style.
pub proof fn law_task_item_renders_as_one_line(
    text: Seq<char>,
    base: TextStyle,
    checked: bool,
    item: Seq<char>,
)
    requires
        item.len() > 0,
        !item.contains('\n'),
        markdown_events(text) == seq![
            MdEventView::Start(MdTag::List(None)),
            MdEventView::Start(MdTag::Item),
            MdEventView::TaskListMarker(checked),
            MdEventView::Text(item),
            MdEventView::End(MdTagEnd::Item),
            MdEventView::End(MdTagEnd::List),
        ],
    ensures
        spec_render(text, base) == seq![
            seq![
                ("- "@, list_marker_style()),
                (if checked { "[x] "@ } else { "[ ] "@ }, list_marker_style()),
                (item, base),
            ],
        ],
{
    reveal_strlit("[x] ");
    reveal_strlit("[ ] ");
    let evs = markdown_events(text);
    let marker: Seq<char> = if checked { "[x] "@ } else { "[ ] "@ };
    let s0 = initial_view(base);
    assert(evs.take(0) =~= Seq::<MdEventView>::empty());
    assert(evs.take(1).drop_last() =~= evs.take(0));
    assert(evs.take(2).drop_last() =~= evs.take(1));
    assert(evs.take(3).drop_last() =~= evs.take(2));
    assert(evs.take(4).drop_last() =~= evs.take(3));
    assert(evs.take(5).drop_last() =~= evs.take(4));
    assert(evs.drop_last() =~= evs.take(5));
    assert(evs.take(1).last() == evs[0]);
    assert(evs.take(2).last() == evs[1]);
    assert(evs.take(3).last() == evs[2]);
    assert(evs.take(4).last() == evs[3]);
    assert(evs.take(5).last() == evs[4]);
    assert(run_events(s0, evs.take(0)) == s0);
    let s1 = run_events(s0, evs.take(1));
    assert(s0.lists.push(None) =~= seq![None]);
    assert(s1 == RenderView { lists: seq![None], ..s0 });
    let s2 = run_events(s0, evs.take(2));
    assert(spaces(0) + "- "@ =~= "- "@);
    assert(s2 == RenderView {
        current: seq![("- "@, list_marker_style())],
        items: seq![spaces("- "@.len())],
        ..s1
    });
    assert(marker.contains(marker[0]));
    lemma_single_line_text(s2, marker, list_marker_style());
    let s3 = run_events(s0, evs.take(3));
    assert(s3 == push_span(s2, marker, list_marker_style()));
    lemma_single_line_text(s3, item, text_style(s3));
    assert(text_style(s3) == base);
    let s4 = run_events(s0, evs.take(4));
    assert(s4 == push_span(s3, item, base));
    let line = seq![
        ("- "@, list_marker_style()),
        (marker, list_marker_style()),
        (item, base),
    ];
    assert(s4.current =~= line);
    let s5 = run_events(s0, evs.take(5));
    assert(s5.lines =~= seq![line]);
    assert(s5.current.len() == 0);
    assert(s5.items.len() == 0);
    let s6 = run_events(s0, evs);
    assert(s6.lines =~= seq![line, seq![]]);
    assert(s6.current.len() == 0);
    assert(seq![line, seq![]].drop_last() =~= seq![line]);
    assert(trim_empty_tail(seq![line]) == seq![line]);
}

// ---------------------------------------------------------------------------
// Executable renderer
// ---------------------------------------------------------------------------

struct MarkdownRenderer {
    lines: Vec<StyledLine>,
    current_spans: Vec<StyledSpan>,
    base_style: TextStyle,
    emphasis_depth: usize,
    strong_depth: usize,
    strikethrough_depth: usize,
    heading_depth: usize,
    in_code_block: bool,
    code_prefix_pending: bool,
    list_stack: Vec<Option<u64>>,
    list_item_stack: Vec<String>,
}

pub open spec fn string_seq_view(s: Seq<String>) -> Seq<Seq<char>> {
    Seq::new(s.len(), |i: int| s[i]@)
}

impl MarkdownRenderer {
    spec fn view(&self) -> RenderView {
        RenderView {
            lines: lines_view(self.lines@),
            current: spans_view(self.current_spans@),
            base: self.base_style,
            emphasis: self.emphasis_depth as nat,
            strong: self.strong_depth as nat,
            strike: self.strikethrough_depth as nat,
            heading: self.heading_depth as nat,
            in_code_block: self.in_code_block,
            code_prefix_pending: self.code_prefix_pending,
            lists: self.list_stack@,
            items: string_seq_view(self.list_item_stack@),
        }
    }

    fn new(base_style: TextStyle) -> (r: Self)
        ensures
            r.view() == initial_view(base_style),
    {
        let r = MarkdownRenderer {
            lines: Vec::new(),
            current_spans: Vec::new(),
            base_style,
            emphasis_depth: 0,
            strong_depth: 0,
            strikethrough_depth: 0,
            heading_depth: 0,
            in_code_block: false,
            code_prefix_pending: false,
            list_stack: Vec::new(),
            list_item_stack: Vec::new(),
        };
        assert(r.view() =~= initial_view(base_style)) by {
            assert(lines_view(r.lines@) =~= seq![]);
            assert(spans_view(r.current_spans@) =~= seq![]);
            assert(string_seq_view(r.list_item_stack@) =~= seq![]);
        }
        r
    }

    fn flush_line(&mut self)
        ensures
            final(self).view() == flush(old(self).view()),
    {
        let mut spans: Vec<StyledSpan> = Vec::new();
        std::mem::swap(&mut spans, &mut self.current_spans);
        let ghost old_lines = self.lines@;
        self.lines.push(StyledLine { spans });
        assert(lines_view(self.lines@) =~= lines_view(old_lines).push(spans_view(spans@)));
        assert(spans_view(self.current_spans@) =~= seq![]);
    }

    fn flush_line_if_non_empty(&mut self)
        ensures
            final(self).view() == flush_if_non_empty(old(self).view()),
    {
        if self.current_spans.len() == 0 {
            return;
        }
        self.flush_line();
    }

    fn push_block_gap_if_needed(&mut self)
        ensures
            final(self).view() == block_gap(old(self).view()),
    {
        if self.list_item_stack.len() > 0 {
            return;
        }
        let n = self.lines.len();
        if n > 0 && self.lines[n - 1].spans.len() > 0 {
            let ghost old_lines = self.lines@;
            self.lines.push(StyledLine { spans: Vec::new() });
            assert(lines_view(self.lines@) =~= lines_view(old_lines).push(seq![])) by {
                assert(spans_view(Seq::<StyledSpan>::empty()) =~= seq![]);
                assert(spans_view(self.lines@[n as int].spans@) =~= seq![]);
            }
        }
    }

    fn push_span(&mut self, content: String, style: TextStyle)
        ensures
            final(self).view() == push_span(old(self).view(), content@, style),
    {
        let ghost old_spans = self.current_spans@;
        self.current_spans.push(StyledSpan { content, style });
        assert(spans_view(self.current_spans@) =~= spans_view(old_spans).push((content@, style)));
    }

    fn write_list_continuation_prefix(&mut self)
        ensures
            final(self).view() == continuation(old(self).view()),
    {
        let n = self.list_item_stack.len();
        if n == 0 {
            return;
        }
        if self.list_item_stack[n - 1].as_str().is_empty() {
            return;
        }
        let prefix = self.list_item_stack[n - 1].clone();
        self.push_span(prefix, TextStyle::plain());
    }

    fn push_line_break(&mut self)
        ensures
            final(self).view() == line_break(old(self).view()),
    {
        self.flush_line();
        if self.in_code_block {
            self.code_prefix_pending = true;
            return;
        }
        self.write_list_continuation_prefix();
    }

    fn push_styled_text(&mut self, text: &str, style: TextStyle)
        ensures
            final(self).view() == styled_text(old(self).view(), text@, style),
    {
        let v = chars_of(text);
        let n = v.len();
        let mut i: usize = 0;
        assert(v@.skip(0) =~= v@);
        while i < n
            invariant
                i <= n,
                n == v@.len(),
                styled_text(self.view(), v@.skip(i as int), style) == styled_text(
                    old(self).view(),
                    text@,
                    style,
                ),
                v@ == text@,
            decreases n - i,
        {
            let j = next_newline(&v, i);
            let ghost rest = v@.skip(i as int);
            let ghost k = newline_pos(rest) as int;
            assert(k == j - i);
            if j < n {
                assert(rest.take(k) =~= v@.subrange(i as int, j as int));
                assert(rest.skip(k + 1) =~= v@.skip(j + 1));
                if j > i {
                    let segment = sub_string(&v, i, j);
                    self.push_span(segment, style);
                }
                self.push_line_break();
                i = j + 1;
            } else {
                assert(rest =~= v@.subrange(i as int, n as int));
                let segment = sub_string(&v, i, n);
                self.push_span(segment, style);
                i = n;
                assert(v@.skip(i as int) =~= Seq::<char>::empty());
            }
        }
        assert(v@.skip(i as int) =~= Seq::<char>::empty());
    }

    fn push_code_block_text(&mut self, text: &str)
        ensures
            final(self).view() == code_text(
                old(self).view(),
                text@,
                code_block_style(old(self).view().base),
            ),
    {
        let style = TextStyle { fg: Some(Color::Yellow), ..self.base_style };
        let v = chars_of(text);
        let n = v.len();
        let mut i: usize = 0;
        assert(v@.skip(0) =~= v@);
        loop
            invariant_except_break
                i <= n,
                n == v@.len(),
                v@ == text@,
                style == code_block_style(old(self).view().base),
                self.base_style == old(self).base_style,
                code_text(self.view(), v@.skip(i as int), style) == code_text(
                    old(self).view(),
                    text@,
                    style,
                ),
            ensures
                self.view() == code_text(old(self).view(), text@, style),
            decreases n + 1 - i,
        {
            let ghost s0 = self.view();
            if self.code_prefix_pending {
                self.push_span(owned("    "), style);
                self.code_prefix_pending = false;
            }
            proof {
                reveal_strlit("    ");
            }
            let j = next_newline(&v, i);
            let ghost rest = v@.skip(i as int);
            let ghost k = newline_pos(rest) as int;
            assert(k == j - i);
            if j < n {
                assert(rest.take(k) =~= v@.subrange(i as int, j as int));
                assert(rest.skip(k + 1) =~= v@.skip(j + 1));
                if j > i {
                    let segment = sub_string(&v, i, j);
                    self.push_span(segment, style);
                }
                self.flush_line();
                self.code_prefix_pending = true;
                i = j + 1;
            } else {
                if i < n {
                    assert(rest =~= v@.subrange(i as int, n as int));
                    let segment = sub_string(&v, i, n);
                    self.push_span(segment, style);
                } else {
                    assert(rest =~= Seq::<char>::empty());
                }
                break;
            }
        }
    }

    fn push_rule(&mut self)
        ensures
            final(self).view() == push_rule(old(self).view()),
    {
        self.flush_line_if_non_empty();
        let line = owned("────────");
        proof {
            reveal_strlit("────────");
            assert(line@ =~= rule_line());
        }
        self.push_span(line, TextStyle { fg: Some(Color::DarkGray), ..TextStyle::plain() });
        self.flush_line_if_non_empty();
        self.push_block_gap_if_needed();
    }

    fn next_list_marker(&mut self) -> (r: String)
        ensures
            (r@, final(self).view()) == next_marker(old(self).view()),
    {
        proof {
            reveal_strlit("- ");
            reveal_strlit(". ");
        }
        let n = self.list_stack.len();
        if n == 0 {
            return owned("- ");
        }
        match self.list_stack[n - 1] {
            Some(number) => {
                let next = if number == u64::MAX {
                    number
                } else {
                    number + 1
                };
                self.list_stack.set(n - 1, Some(next));
                let digits = u64_decimal(number);
                concat_str(digits.as_str(), ". ")
            },
            None => owned("- "),
        }
    }

    fn start_list_item(&mut self)
        ensures
            final(self).view() == start_item(old(self).view()),
    {
        if self.current_spans.len() > 0 {
            self.flush_line();
        }
        let depth = if self.list_stack.len() > 0 {
            self.list_stack.len() - 1
        } else {
            0
        };
        let marker = self.next_list_marker();
        let mut prefix: Vec<char> = Vec::new();
        let mut d: usize = 0;
        while d < depth
            invariant
                d <= depth,
                prefix@ == spaces(2 * d as nat),
            decreases depth - d,
        {
            prefix.push(' ');
            prefix.push(' ');
            d = d + 1;
            assert(prefix@ =~= spaces(2 * d as nat));
        }
        let m = chars_of(marker.as_str());
        let mut k: usize = 0;
        let ghost p0 = prefix@;
        while k < m.len()
            invariant
                k <= m@.len(),
                prefix@ == p0 + m@.take(k as int),
            decreases m@.len() - k,
        {
            prefix.push(m[k]);
            k = k + 1;
            assert(prefix@ =~= p0 + m@.take(k as int));
        }
        assert(m@.take(k as int) =~= m@);
        let mut cont: Vec<char> = Vec::new();
        let mut c: usize = 0;
        while c < prefix.len()
            invariant
                c <= prefix@.len(),
                cont@ == spaces(c as nat),
            decreases prefix@.len() - c,
        {
            cont.push(' ');
            c = c + 1;
            assert(cont@ =~= spaces(c as nat));
        }
        let prefix_text = string_of(&prefix);
        let continuation_prefix = string_of(&cont);
        self.push_span(
            prefix_text,
            TextStyle { fg: Some(Color::DarkGray), bold: true, ..TextStyle::plain() },
        );
        let ghost old_items = self.list_item_stack@;
        self.list_item_stack.push(continuation_prefix);
        assert(string_seq_view(self.list_item_stack@) =~= string_seq_view(old_items).push(
            continuation_prefix@,
        ));
    }

    fn current_text_style(&self) -> (r: TextStyle)
        ensures
            r == text_style(self.view()),
    {
        let mut style = self.base_style;
        if self.heading_depth > 0 {
            style.bold = true;
        }
        if self.strong_depth > 0 {
            style.bold = true;
        }
        if self.emphasis_depth > 0 {
            style.italic = true;
        }
        if self.strikethrough_depth > 0 {
            style.crossed_out = true;
        }
        style
    }

    /// Opens a block or an inline style.
    fn start_tag(&mut self, tag: &MdTag)
        requires
            old(self).emphasis_depth < usize::MAX,
            old(self).strong_depth < usize::MAX,
            old(self).strikethrough_depth < usize::MAX,
            old(self).heading_depth < usize::MAX,
        ensures
            final(self).view() == step(old(self).view(), MdEventView::Start(*tag)),
    {
        match tag {
            MdTag::Heading => {
                self.flush_line_if_non_empty();
                self.heading_depth = self.heading_depth + 1;
            },
            MdTag::CodeBlock => {
                self.flush_line_if_non_empty();
                self.in_code_block = true;
                self.code_prefix_pending = true;
            },
            MdTag::List(start) => {
                self.flush_line_if_non_empty();
                self.list_stack.push(*start);
            },
            MdTag::Item => self.start_list_item(),
            MdTag::Emphasis => self.emphasis_depth = self.emphasis_depth + 1,
            MdTag::Strong => self.strong_depth = self.strong_depth + 1,
            MdTag::Strikethrough => self.strikethrough_depth = self.strikethrough_depth + 1,
            MdTag::Other => {},
        }
    }

    /// Closes a block or an inline style.
    fn end_tag(&mut self, tag: &MdTagEnd)
        ensures
            final(self).view() == step(old(self).view(), MdEventView::End(*tag)),
    {
        match tag {
            MdTagEnd::Paragraph => {
                self.flush_line_if_non_empty();
                self.push_block_gap_if_needed();
            },
            MdTagEnd::Heading => {
                self.heading_depth = if self.heading_depth > 0 {
                    self.heading_depth - 1
                } else {
                    0
                };
                self.flush_line_if_non_empty();
                self.push_block_gap_if_needed();
            },
            MdTagEnd::CodeBlock => {
                self.in_code_block = false;
                self.code_prefix_pending = false;
                self.flush_line_if_non_empty();
                self.push_block_gap_if_needed();
            },
            MdTagEnd::List => {
                self.flush_line_if_non_empty();
                self.list_stack.pop();
                self.push_block_gap_if_needed();
            },
            MdTagEnd::Item => {
                self.flush_line_if_non_empty();
                let ghost old_items = self.list_item_stack@;
                self.list_item_stack.pop();
                assert(string_seq_view(self.list_item_stack@) =~= if old_items.len() > 0 {
                    string_seq_view(old_items).drop_last()
                } else {
                    string_seq_view(old_items)
                });
            },
            MdTagEnd::Emphasis => {
                self.emphasis_depth = if self.emphasis_depth > 0 {
                    self.emphasis_depth - 1
                } else {
                    0
                };
            },
            MdTagEnd::Strong => {
                self.strong_depth = if self.strong_depth > 0 {
                    self.strong_depth - 1
                } else {
                    0
                };
            },
            MdTagEnd::Strikethrough => {
                self.strikethrough_depth = if self.strikethrough_depth > 0 {
                    self.strikethrough_depth - 1
                } else {
                    0
                };
            },
            MdTagEnd::Other => {},
        }
    }

    /// Text: code block lines, or text in the current style.
    fn push_text(&mut self, text: &String)
        ensures
            final(self).view() == step(old(self).view(), MdEventView::Text(text@)),
    {
        if text.as_str().is_empty() {
            return;
        }
        if self.in_code_block {
            self.push_code_block_text(text.as_str());
        } else {
            let style = self.current_text_style();
            self.push_styled_text(text.as_str(), style);
        }
    }

    /// Inline code, in bold yellow.
    fn push_inline_code(&mut self, text: &String)
        ensures
            final(self).view() == step(old(self).view(), MdEventView::Code(text@)),
    {
        let style = TextStyle { fg: Some(Color::Yellow), bold: true, ..self.base_style };
        self.push_styled_text(text.as_str(), style);
    }

    fn push_event(&mut self, event: &MdEvent)
        requires
            old(self).emphasis_depth < usize::MAX,
            old(self).strong_depth < usize::MAX,
            old(self).strikethrough_depth < usize::MAX,
            old(self).heading_depth < usize::MAX,
        ensures
            final(self).view() == step(old(self).view(), event_view(*event)),
    {
        match event {
            MdEvent::Start(tag) => self.start_tag(tag),
            MdEvent::End(tag) => self.end_tag(tag),
            MdEvent::Text(text) => self.push_text(text),
            MdEvent::Code(text) => self.push_inline_code(text),
            MdEvent::SoftBreak => self.push_line_break(),
            MdEvent::HardBreak => self.push_line_break(),
            MdEvent::Rule => self.push_rule(),
            MdEvent::TaskListMarker(checked) => {
                let marker = if *checked {
                    "[x] "
                } else {
                    "[ ] "
                };
                self.push_styled_text(
                    marker,
                    TextStyle { fg: Some(Color::DarkGray), bold: true, ..TextStyle::plain() },
                );
            },
            MdEvent::Other => {},
        }
    }

    fn finish(&mut self) -> (r: Vec<StyledLine>)
        ensures
            lines_view(r@) == finish(old(self).view()),
    {
        self.flush_line_if_non_empty();
        let ghost target = finish(self.view());
        while self.lines.len() > 0 && self.lines[self.lines.len() - 1].spans.len() == 0
            invariant
                trim_empty_tail(lines_view(self.lines@)) == target,
            decreases self.lines@.len(),
        {
            let ghost before = self.lines@;
            self.lines.pop();
            assert(lines_view(self.lines@) =~= lines_view(before).drop_last());
        }
        let mut out: Vec<StyledLine> = Vec::new();
        std::mem::swap(&mut out, &mut self.lines);
        out
    }
}

/// The index of the first `\n` at or after `from`, or the length.
fn next_newline(v: &Vec<char>, from: usize) -> (r: usize)
    requires
        from <= v@.len(),
    ensures
        from <= r <= v@.len(),
        newline_pos(v@.skip(from as int)) == r - from,
{
    let mut k = from;
    while k < v.len() && v[k] != '\n'
        invariant
            from <= k <= v@.len(),
            forall|i: int| from <= i < k ==> #[trigger] v@[i] != '\n',
        decreases v@.len() - k,
    {
        k = k + 1;
    }
    proof {
        let t = v@.skip(from as int);
        assert forall|i: int| 0 <= i < k - from implies #[trigger] t[i] != '\n' by {
            assert(t[i] == v@[i + from]);
        }
        if k < v@.len() {
            assert(t[k - from] == v@[k as int]);
        }
        lemma_newline_pos_is(t, (k - from) as nat);
    }
    k
}

/// The characters `v[from..to]` as a string.
fn sub_string(v: &Vec<char>, from: usize, to: usize) -> (r: String)
    requires
        from <= to <= v@.len(),
    ensures
        r@ == v@.subrange(from as int, to as int),
{
    let mut out: Vec<char> = Vec::new();
    let mut i = from;
    while i < to
        invariant
            from <= i <= to <= v@.len(),
            out@ == v@.subrange(from as int, i as int),
        decreases to - i,
    {
        out.push(v[i]);
        i = i + 1;
        assert(out@ =~= v@.subrange(from as int, i as int));
    }
    string_of(&out)
}

fn concat_str(a: &str, b: &str) -> (r: String)
    ensures
        r@ == a@ + b@,
{
    crate::text::concat2(a, b)
}

/// Renders Markdown into styled lines in `base_style`: headings and strong
/// text in bold, emphasis in italics, strikethrough crossed out, inline code
/// and code blocks in yellow (code blocks indented four spaces), list items
/// with their markers, rules as a line of box-drawing characters, and an
/// empty line between blocks.
pub fn render_markdown_lines(markdown: &str, base_style: TextStyle) -> (r: Vec<StyledLine>)
    ensures
        lines_view(r@) == spec_render(markdown@, base_style),
{
    let events = parse_markdown(markdown);
    let mut renderer = MarkdownRenderer::new(base_style);
    let mut i: usize = 0;
    let ghost ev = events_view(events@);
    assert(ev.take(0) =~= Seq::<MdEventView>::empty());
    while i < events.len()
        invariant
            i <= events@.len(),
            ev == events_view(events@),
            renderer.view() == run_events(initial_view(base_style), ev.take(i as int)),
            renderer.emphasis_depth <= i,
            renderer.strong_depth <= i,
            renderer.strikethrough_depth <= i,
            renderer.heading_depth <= i,
        decreases events@.len() - i,
    {
        let ghost before = renderer.view();
        proof {
            lemma_step_bounds(before, ev[i as int]);
            assert(ev.take(i + 1).drop_last() =~= ev.take(i as int));
            assert(ev.take(i + 1).last() == ev[i as int]);
        }
        renderer.push_event(&events[i]);
        i = i + 1;
    }
    assert(ev.take(i as int) =~= ev);
    renderer.finish()
}

} // verus!
