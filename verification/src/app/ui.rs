//! What the terminal UI shows: the chat history as styled lines (assistant
//! messages rendered as Markdown), the model line, the header and the input
//! cursor. Drawing the widgets is left to the terminal front end.
use vstd::prelude::*;

use crate::app::markdown::{
    lines_view, render_markdown_lines, spaces, span_view, spans_view, spec_render, Color, SpanView,
    StyledLine, StyledSpan, TextStyle,
};
use crate::app::state::{
    char_index, AppState, ChatMessage, InputState, CANCEL_SHORTCUT_LABEL, LOCAL_COMMANDS_INLINE,
};
use crate::auth::oauth_chatgpt::{lemma_newline_pos_is, newline_pos};
use crate::model::MessageRole;
use crate::text::{chars_of, concat3, decimal, owned, string_of, u64_decimal};

verus! {

pub open spec fn spec_role_prefix(role: MessageRole) -> Seq<char> {
    match role {
        MessageRole::System => "[system] "@,
        MessageRole::User => "> "@,
        MessageRole::Assistant => ". "@,
        MessageRole::Tool => "[tool] "@,
    }
}

/// The prefix that starts a message in the history.
pub fn role_prefix(role: MessageRole) -> (r: &'static str)
    ensures
        r@ == spec_role_prefix(role),
{
    match role {
        MessageRole::System => "[system] ",
        MessageRole::User => "> ",
        MessageRole::Assistant => ". ",
        MessageRole::Tool => "[tool] ",
    }
}

pub open spec fn spec_role_color(role: MessageRole) -> Color {
    match role {
        MessageRole::System => Color::Yellow,
        MessageRole::User => Color::Cyan,
        MessageRole::Assistant => Color::Green,
        MessageRole::Tool => Color::Blue,
    }
}

pub fn role_color(role: MessageRole) -> (r: Color)
    ensures
        r == spec_role_color(role),
{
    match role {
        MessageRole::System => Color::Yellow,
        MessageRole::User => Color::Cyan,
        MessageRole::Assistant => Color::Green,
        MessageRole::Tool => Color::Blue,
    }
}

/// The style of a message's prefix: the role's color, bold for user and
/// system messages.
pub open spec fn spec_prefix_style(role: MessageRole) -> TextStyle {
    TextStyle {
        fg: Some(spec_role_color(role)),
        bold: role == MessageRole::User || role == MessageRole::System,
        italic: false,
        crossed_out: false,
    }
}

pub fn role_prefix_style(role: MessageRole) -> (r: TextStyle)
    ensures
        r == spec_prefix_style(role),
{
    let style = TextStyle::plain().with_fg(role_color(role));
    match role {
        MessageRole::User | MessageRole::System => style.with_bold(),
        _ => style,
    }
}

/// The style of a message's text.
pub open spec fn spec_body_style(role: MessageRole) -> TextStyle {
    TextStyle {
        fg: Some(
            match role {
                MessageRole::System => Color::Gray,
                MessageRole::User => Color::White,
                MessageRole::Assistant => Color::Green,
                MessageRole::Tool => Color::Blue,
            },
        ),
        bold: false,
        italic: false,
        crossed_out: false,
    }
}

pub fn role_body_style(role: MessageRole) -> (r: TextStyle)
    ensures
        r == spec_body_style(role),
{
    let color = match role {
        MessageRole::System => Color::Gray,
        MessageRole::User => Color::White,
        MessageRole::Assistant => Color::Green,
        MessageRole::Tool => Color::Blue,
    };
    TextStyle::plain().with_fg(color)
}

pub open spec fn strip_cr(line: Seq<char>) -> Seq<char> {
    if line.len() > 0 && line.last() == '\r' {
        line.drop_last()
    } else {
        line
    }
}

/// The lines of a text as `str::lines` yields them: split at `\n`, a `\r`
/// before the `\n` dropped, no line after a final `\n`.
pub open spec fn text_lines(s: Seq<char>) -> Seq<Seq<char>>
    decreases s.len(),
{
    if s.len() == 0 {
        seq![]
    } else {
        let k = newline_pos(s) as int;
        if k < s.len() {
            seq![strip_cr(s.take(k))] + text_lines(s.skip(k + 1))
        } else {
            seq![s]
        }
    }
}

/// A history line: `lead` in `lead_style`, then `spans`.
pub open spec fn led(lead: Seq<char>, lead_style: TextStyle, spans: Seq<SpanView>) -> Seq<SpanView> {
    seq![(lead, lead_style)] + spans
}

/// The history lines of one message: its first line after the role prefix,
/// later lines after blanks as wide as the prefix. Assistant messages are
/// rendered as Markdown; an empty message shows its prefix alone.
pub open spec fn spec_message_lines(m: ChatMessage) -> Seq<Seq<SpanView>> {
    let prefix = spec_role_prefix(m.role);
    let cont = spaces(prefix.len());
    let ps = spec_prefix_style(m.role);
    let bs = spec_body_style(m.role);
    let plain = TextStyle { fg: None, bold: false, italic: false, crossed_out: false };
    if m.role == MessageRole::Assistant {
        let rendered = spec_render(m.text@, bs);
        if rendered.len() == 0 {
            seq![seq![(prefix, ps)]]
        } else {
            Seq::new(
                rendered.len(),
                |i: int|
                    if i == 0 {
                        led(prefix, ps, rendered[0])
                    } else {
                        led(cont, plain, rendered[i])
                    },
            )
        }
    } else {
        let lines = text_lines(m.text@);
        if lines.len() == 0 {
            seq![seq![(prefix, ps)]]
        } else {
            Seq::new(
                lines.len(),
                |i: int|
                    if i == 0 {
                        seq![(prefix, ps), (lines[0], bs)]
                    } else {
                        seq![(cont, plain), (lines[i], bs)]
                    },
            )
        }
    }
}

/// The history lines of the messages, an empty line between two messages.
pub open spec fn history_body(messages: Seq<ChatMessage>) -> Seq<Seq<SpanView>>
    decreases messages.len(),
{
    if messages.len() == 0 {
        seq![]
    } else if messages.len() == 1 {
        spec_message_lines(messages[0])
    } else {
        history_body(messages.drop_last()) + seq![seq![]] + spec_message_lines(messages.last())
    }
}

/// The history lines, or a hint when there are no messages yet.
pub open spec fn spec_history_lines(messages: Seq<ChatMessage>) -> Seq<Seq<SpanView>> {
    if messages.len() == 0 {
        seq![
            seq![
                ("No messages yet."@, TextStyle {
                    fg: Some(Color::DarkGray),
                    bold: false,
                    italic: false,
                    crossed_out: false,
                }),
            ],
        ]
    } else {
        history_body(messages)
    }
}

fn span(content: String, style: TextStyle) -> (r: StyledSpan)
    ensures
        r.content == content,
        r.style == style,
{
    StyledSpan { content, style }
}

/// The lines of a text (`str::lines`).
fn split_lines(text: &str) -> (r: Vec<String>)
    ensures
        r@.len() == text_lines(text@).len(),
        forall|i: int| 0 <= i < r@.len() ==> (#[trigger] r@[i])@ == text_lines(text@)[i],
{
    let v = chars_of(text);
    let n = v.len();
    let mut out: Vec<String> = Vec::new();
    let ghost mut acc: Seq<Seq<char>> = seq![];
    let mut i: usize = 0;
    assert(v@.skip(0) =~= v@);
    while i < n
        invariant
            i <= n,
            n == v@.len(),
            v@ == text@,
            out@.len() == acc.len(),
            forall|j: int| 0 <= j < out@.len() ==> (#[trigger] out@[j])@ == acc[j],
            acc + text_lines(v@.skip(i as int)) == text_lines(text@),
        decreases n - i,
    {
        let ghost rest = v@.skip(i as int);
        let mut j = i;
        while j < n && v[j] != '\n'
            invariant
                i <= j <= n,
                n == v@.len(),
                forall|k: int| i <= k < j ==> #[trigger] v@[k] != '\n',
            decreases n - j,
        {
            j = j + 1;
        }
        proof {
            assert forall|k: int| 0 <= k < j - i implies #[trigger] rest[k] != '\n' by {
                assert(rest[k] == v@[k + i]);
            }
            if j < n {
                assert(rest[j - i] == v@[j as int]);
            }
            lemma_newline_pos_is(rest, (j - i) as nat);
        }
        let mut line: Vec<char> = Vec::new();
        let mut k = i;
        while k < j
            invariant
                i <= k <= j <= n,
                n == v@.len(),
                line@ == v@.subrange(i as int, k as int),
            decreases j - k,
        {
            line.push(v[k]);
            k = k + 1;
            assert(line@ =~= v@.subrange(i as int, k as int));
        }
        if j < n {
            if line.len() > 0 && line[line.len() - 1] == '\r' {
                line.pop();
            }
            proof {
                assert(rest.take(j - i) =~= v@.subrange(i as int, j as int));
                assert(rest.skip(j - i + 1) =~= v@.skip(j + 1));
                assert(text_lines(rest) == seq![strip_cr(rest.take(j - i))] + text_lines(
                    v@.skip(j + 1),
                ));
                assert(acc.push(line@) + text_lines(v@.skip(j + 1)) =~= acc + text_lines(rest));
                acc = acc.push(line@);
            }
            out.push(string_of(&line));
            i = j + 1;
        } else {
            proof {
                assert(rest =~= v@.subrange(i as int, n as int));
                assert(text_lines(rest) == seq![rest]);
                assert(v@.skip(n as int) =~= Seq::<char>::empty());
                assert(acc.push(line@) + text_lines(v@.skip(n as int)) =~= acc + text_lines(rest));
                acc = acc.push(line@);
            }
            out.push(string_of(&line));
            i = n;
        }
    }
    proof {
        assert(v@.skip(i as int) =~= Seq::<char>::empty());
        assert(acc + Seq::<Seq<char>>::empty() =~= acc);
    }
    out
}

fn blank_prefix(n: usize) -> (r: String)
    ensures
        r@ == spaces(n as nat),
{
    let mut v: Vec<char> = Vec::new();
    let mut i: usize = 0;
    while i < n
        invariant
            i <= n,
            v@ == spaces(i as nat),
        decreases n - i,
    {
        v.push(' ');
        i = i + 1;
        assert(v@ =~= spaces(i as nat));
    }
    string_of(&v)
}

/// Appends the history lines of one message.
fn append_message_lines(lines: &mut Vec<StyledLine>, message: &ChatMessage)
    ensures
        lines_view(final(lines)@) == lines_view(old(lines)@) + spec_message_lines(*message),
{
    let prefix = role_prefix(message.role);
    let prefix_len = chars_of(prefix).len();
    let continuation = blank_prefix(prefix_len);
    let role_style = role_prefix_style(message.role);
    let body_style = role_body_style(message.role);
    if message.role == MessageRole::Assistant {
        append_assistant_markdown_lines(lines, message, prefix, &continuation, role_style, body_style);
        return;
    }
    append_plain_message_lines(lines, message, prefix, &continuation, role_style, body_style);
}

/// Appends the lines of a non-assistant message: its text line by line.
fn append_plain_message_lines(
    lines: &mut Vec<StyledLine>,
    message: &ChatMessage,
    prefix: &str,
    continuation: &String,
    role_style: TextStyle,
    body_style: TextStyle,
)
    requires
        prefix@ == spec_role_prefix(message.role),
        continuation@ == spaces(spec_role_prefix(message.role).len()),
        role_style == spec_prefix_style(message.role),
        body_style == spec_body_style(message.role),
        message.role != MessageRole::Assistant,
    ensures
        lines_view(final(lines)@) == lines_view(old(lines)@) + spec_message_lines(*message),
{
    let ghost target = spec_message_lines(*message);
    let ghost start = lines_view(lines@);
    let text_lines_v = split_lines(message.text.as_str());
    if text_lines_v.len() == 0 {
        let mut spans: Vec<StyledSpan> = Vec::new();
        spans.push(span(owned(prefix), role_style));
        lines.push(StyledLine { spans });
        assert(spans_view(spans@) =~= seq![(spec_role_prefix(message.role), role_style)]);
        assert(lines_view(lines@) =~= start + target);
        return;
    }
    let mut i: usize = 0;
    while i < text_lines_v.len()
        invariant
            i <= text_lines_v@.len(),
            text_lines_v@.len() == text_lines(message.text@).len(),
            forall|j: int|
                0 <= j < text_lines_v@.len() ==> (#[trigger] text_lines_v@[j])@ == text_lines(
                    message.text@,
                )[j],
            text_lines_v@.len() > 0,
            continuation@ == spaces(spec_role_prefix(message.role).len()),
            prefix@ == spec_role_prefix(message.role),
            role_style == spec_prefix_style(message.role),
            body_style == spec_body_style(message.role),
            message.role != MessageRole::Assistant,
            target == spec_message_lines(*message),
            lines_view(lines@) == start + target.take(i as int),
        decreases text_lines_v@.len() - i,
    {
        let mut spans: Vec<StyledSpan> = Vec::new();
        if i == 0 {
            spans.push(span(owned(prefix), role_style));
        } else {
            spans.push(span(continuation.clone(), TextStyle::plain()));
        }
        spans.push(span(text_lines_v[i].clone(), body_style));
        let ghost before_lines = lines_view(lines@);
        lines.push(StyledLine { spans });
        proof {
            assert(spans_view(spans@) =~= target[i as int]);
            assert(lines_view(lines@) =~= before_lines.push(target[i as int]));
            assert(target.take(i + 1) =~= target.take(i as int).push(target[i as int]));
        }
        i = i + 1;
    }
    assert(target.take(i as int) =~= target);
}

/// Appends the lines of an assistant message: its text rendered as Markdown.
fn append_assistant_markdown_lines(
    lines: &mut Vec<StyledLine>,
    message: &ChatMessage,
    prefix: &str,
    continuation: &String,
    role_style: TextStyle,
    body_style: TextStyle,
)
    requires
        prefix@ == spec_role_prefix(message.role),
        continuation@ == spaces(spec_role_prefix(message.role).len()),
        role_style == spec_prefix_style(message.role),
        body_style == spec_body_style(message.role),
        message.role == MessageRole::Assistant,
    ensures
        lines_view(final(lines)@) == lines_view(old(lines)@) + spec_message_lines(*message),
{
    let ghost target = spec_message_lines(*message);
    let ghost start = lines_view(lines@);
    let rendered = render_markdown_lines(message.text.as_str(), body_style);
    if rendered.len() == 0 {
        let mut spans: Vec<StyledSpan> = Vec::new();
        spans.push(span(owned(prefix), role_style));
        lines.push(StyledLine { spans });
        assert(spans_view(spans@) =~= seq![(spec_role_prefix(message.role), role_style)]);
        assert(lines_view(lines@) =~= start + target);
        return;
    }
    let mut i: usize = 0;
    while i < rendered.len()
        invariant
            i <= rendered@.len(),
            rendered@.len() > 0,
            lines_view(rendered@) == spec_render(message.text@, body_style),
            continuation@ == spaces(spec_role_prefix(message.role).len()),
            prefix@ == spec_role_prefix(message.role),
            role_style == spec_prefix_style(message.role),
            body_style == spec_body_style(message.role),
            message.role == MessageRole::Assistant,
            target == spec_message_lines(*message),
            lines_view(lines@) == start + target.take(i as int),
        decreases rendered@.len() - i,
    {
        let mut spans: Vec<StyledSpan> = Vec::new();
        if i == 0 {
            spans.push(span(owned(prefix), role_style));
        } else {
            spans.push(span(continuation.clone(), TextStyle::plain()));
        }
        let mut k: usize = 0;
        let ghost lead = spans_view(spans@);
        while k < rendered[i].spans.len()
            invariant
                i < rendered@.len(),
                k <= rendered@[i as int].spans@.len(),
                spans_view(spans@) == lead + spans_view(rendered@[i as int].spans@).take(
                    k as int,
                ),
            decreases rendered@[i as int].spans@.len() - k,
        {
            let ghost before = spans@;
            let ghost rs = spans_view(rendered@[i as int].spans@);
            let item = rendered[i].spans[k].duplicate();
            spans.push(item);
            proof {
                assert(spans_view(spans@) =~= spans_view(before).push(span_view(item)));
                assert(span_view(item) == rs[k as int]);
                assert(rs.take(k + 1) =~= rs.take(k as int).push(rs[k as int]));
            }
            k = k + 1;
        }
        proof {
            assert(spans_view(rendered@[i as int].spans@).take(k as int) =~= spans_view(
                rendered@[i as int].spans@,
            ));
            assert(lines_view(rendered@)[i as int] == spans_view(rendered@[i as int].spans@));
            assert(spans_view(spans@) =~= target[i as int]);
        }
        let ghost before_lines = lines_view(lines@);
        lines.push(StyledLine { spans });
        proof {
            assert(lines_view(lines@) =~= before_lines.push(spans_view(spans@)));
            assert(target.take(i + 1) =~= target.take(i as int).push(target[i as int]));
        }
        i = i + 1;
    }
    assert(target.take(i as int) =~= target);
}

/// The history lines of the chat.
pub fn build_history_lines(messages: &Vec<ChatMessage>) -> (r: Vec<StyledLine>)
    ensures
        lines_view(r@) == spec_history_lines(messages@),
{
    let mut lines: Vec<StyledLine> = Vec::new();
    if messages.len() == 0 {
        let mut spans: Vec<StyledSpan> = Vec::new();
        spans.push(span(owned("No messages yet."), TextStyle::plain().with_fg(Color::DarkGray)));
        assert(spans_view(spans@) =~= spec_history_lines(messages@)[0]);
        lines.push(StyledLine { spans });
        assert(lines_view(lines@) =~= spec_history_lines(messages@));
        return lines;
    }
    let mut i: usize = 0;
    assert(lines_view(lines@) =~= history_body(messages@.take(0)));
    while i < messages.len()
        invariant
            i <= messages@.len(),
            lines_view(lines@) == history_body(messages@.take(i as int)),
        decreases messages@.len() - i,
    {
        proof {
            assert(messages@.take(i + 1).drop_last() =~= messages@.take(i as int));
            assert(messages@.take(i + 1).last() == messages@[i as int]);
            if i == 0 {
                assert(messages@.take(1)[0] == messages@[0]);
            }
        }
        if i > 0 {
            let ghost before = lines_view(lines@);
            lines.push(StyledLine { spans: Vec::new() });
            assert(lines_view(lines@) =~= before + seq![seq![]]) by {
                assert(spans_view(Seq::<StyledSpan>::empty()) =~= seq![]);
            }
        }
        let ghost mid = lines_view(lines@);
        append_message_lines(&mut lines, &messages[i]);
        proof {
            if i == 0 {
                assert(lines_view(lines@) =~= spec_message_lines(messages@[0]));
            }
        }
        i = i + 1;
    }
    assert(messages@.take(i as int) =~= messages@);
    lines
}

/// The model line: model, variant, session id and session state, each
/// after a bold gray label.
pub open spec fn spec_model_variant_line(
    model: Seq<char>,
    variant: Seq<char>,
    session_id: Seq<char>,
    session_state: Seq<char>,
) -> Seq<SpanView> {
    let label = TextStyle { fg: Some(Color::DarkGray), bold: true, italic: false, crossed_out: false };
    let plain = TextStyle { fg: None, bold: false, italic: false, crossed_out: false };
    seq![
        ("model: "@, label),
        (model, TextStyle { fg: Some(Color::White), ..plain }),
        (" | "@, plain),
        ("variant: "@, label),
        (variant, TextStyle { fg: Some(Color::Cyan), ..plain }),
        (" | "@, plain),
        ("session: "@, label),
        (session_id, TextStyle { fg: Some(Color::Green), ..plain }),
        (" | "@, plain),
        ("state: "@, label),
        (session_state, TextStyle { fg: Some(Color::Yellow), ..plain }),
    ]
}

pub fn build_model_variant_line(state: &AppState) -> (r: StyledLine)
    ensures
        spans_view(r.spans@) == spec_model_variant_line(
            state.model@,
            state.variant@,
            state.session_id@,
            state.session_state@,
        ),
{
    let label = TextStyle::plain().with_fg(Color::DarkGray).with_bold();
    let plain = TextStyle::plain();
    let mut spans: Vec<StyledSpan> = Vec::new();
    spans.push(span(owned("model: "), label));
    spans.push(span(state.model.clone(), plain.with_fg(Color::White)));
    spans.push(span(owned(" | "), plain));
    spans.push(span(owned("variant: "), label));
    spans.push(span(state.variant.clone(), plain.with_fg(Color::Cyan)));
    spans.push(span(owned(" | "), plain));
    spans.push(span(owned("session: "), label));
    spans.push(span(state.session_id.clone(), plain.with_fg(Color::Green)));
    spans.push(span(owned(" | "), plain));
    spans.push(span(owned("state: "), label));
    spans.push(span(state.session_state.clone(), plain.with_fg(Color::Yellow)));
    assert(spans_view(spans@) =~= spec_model_variant_line(
        state.model@,
        state.variant@,
        state.session_id@,
        state.session_state@,
    ));
    StyledLine { spans }
}

/// The number of characters of a line.
pub open spec fn line_chars(spans: Seq<SpanView>) -> nat
    decreases spans.len(),
{
    if spans.len() == 0 {
        0
    } else {
        line_chars(spans.drop_last()) + spans.last().0.len()
    }
}

/// The characters of all lines.
pub open spec fn total_chars(lines: Seq<Seq<SpanView>>) -> nat
    decreases lines.len(),
{
    if lines.len() == 0 {
        0
    } else {
        total_chars(lines.drop_last()) + line_chars(lines.last())
    }
}

pub open spec fn div_ceil(a: nat, b: nat) -> nat {
    a / b + if a % b > 0 { 1nat } else { 0nat }
}

/// Terminal rows a line takes when wrapped at `width` columns (an empty
/// line takes one row).
pub open spec fn line_rows(spans: Seq<SpanView>, width: nat) -> nat {
    div_ceil(if line_chars(spans) > 0 { line_chars(spans) } else { 1 }, width)
}

/// Rows the history takes wrapped at `width` columns; one row per line
/// when there is no width to wrap in.
pub open spec fn total_rows(lines: Seq<Seq<SpanView>>, width: nat) -> nat
    decreases lines.len(),
{
    if width == 0 {
        lines.len()
    } else if lines.len() == 0 {
        0
    } else {
        total_rows(lines.drop_last(), width) + line_rows(lines.last(), width)
    }
}

proof fn lemma_line_chars_prefix(spans: Seq<SpanView>, k: int)
    requires
        0 <= k <= spans.len(),
    ensures
        line_chars(spans.take(k)) <= line_chars(spans),
    decreases spans.len() - k,
{
    if k < spans.len() {
        lemma_line_chars_prefix(spans, k + 1);
        assert(spans.take(k + 1).drop_last() =~= spans.take(k));
    } else {
        assert(spans.take(k) =~= spans);
    }
}

proof fn lemma_total_chars_prefix(lines: Seq<Seq<SpanView>>, k: int)
    requires
        0 <= k <= lines.len(),
    ensures
        total_chars(lines.take(k)) <= total_chars(lines),
    decreases lines.len() - k,
{
    if k < lines.len() {
        lemma_total_chars_prefix(lines, k + 1);
        assert(lines.take(k + 1).drop_last() =~= lines.take(k));
    } else {
        assert(lines.take(k) =~= lines);
    }
}

proof fn lemma_line_rows_bound(spans: Seq<SpanView>, width: nat)
    requires
        width > 0,
    ensures
        line_rows(spans, width) <= line_chars(spans) + 2,
{
    let c: nat = if line_chars(spans) > 0 { line_chars(spans) } else { 1 };
    assert(c / width <= c) by (nonlinear_arith)
        requires
            width > 0,
    ;
}

proof fn lemma_total_rows_bound(lines: Seq<Seq<SpanView>>, width: nat)
    requires
        width > 0,
    ensures
        total_rows(lines, width) <= total_chars(lines) + 2 * lines.len(),
    decreases lines.len(),
{
    if lines.len() > 0 {
        lemma_total_rows_bound(lines.drop_last(), width);
        lemma_line_rows_bound(lines.last(), width);
    }
}

/// The number of characters of a line's spans.
fn styled_line_chars(line: &StyledLine, limit: Ghost<nat>) -> (r: usize)
    requires
        line_chars(spans_view(line.spans@)) <= limit@,
        limit@ <= usize::MAX,
    ensures
        r == line_chars(spans_view(line.spans@)),
{
    let ghost sv = spans_view(line.spans@);
    let mut c: usize = 0;
    let mut k: usize = 0;
    assert(sv.take(0) =~= Seq::<SpanView>::empty());
    while k < line.spans.len()
        invariant
            k <= line.spans@.len(),
            sv == spans_view(line.spans@),
            line_chars(sv) <= limit@,
            limit@ <= usize::MAX,
            c == line_chars(sv.take(k as int)),
        decreases line.spans@.len() - k,
    {
        proof {
            assert(sv.take(k + 1).drop_last() =~= sv.take(k as int));
            assert(sv.take(k + 1).last() == sv[k as int]);
            lemma_line_chars_prefix(sv, k + 1);
        }
        let n = chars_of(line.spans[k].content.as_str()).len();
        c = c + n;
        k = k + 1;
    }
    assert(sv.take(k as int) =~= sv);
    c
}

/// Rows the history lines take in a view `content_width` columns wide.
pub fn total_wrapped_history_rows(lines: &Vec<StyledLine>, content_width: u16) -> (r: usize)
    requires
        total_chars(lines_view(lines@)) + 2 * lines@.len() <= usize::MAX,
    ensures
        r == total_rows(lines_view(lines@), content_width as nat),
{
    if content_width == 0 {
        return lines.len();
    }
    let width = content_width as usize;
    let ghost lv = lines_view(lines@);
    let mut total: usize = 0;
    let mut i: usize = 0;
    assert(lv.take(0) =~= Seq::<Seq<SpanView>>::empty());
    while i < lines.len()
        invariant
            i <= lines@.len(),
            lv == lines_view(lines@),
            width == content_width as nat,
            width > 0,
            total_chars(lv) + 2 * lv.len() <= usize::MAX,
            total == total_rows(lv.take(i as int), width as nat),
        decreases lines@.len() - i,
    {
        proof {
            assert(lv.take(i + 1).drop_last() =~= lv.take(i as int));
            assert(lv.take(i + 1).last() == lv[i as int]);
            lemma_total_chars_prefix(lv, i + 1);
            lemma_total_rows_bound(lv.take(i + 1), width as nat);
            assert(total_chars(lv.take(i + 1)) == total_chars(lv.take(i as int)) + line_chars(
                lv[i as int],
            ));
            assert(lv[i as int] == spans_view(lines@[i as int].spans@));
        }
        let c = styled_line_chars(&lines[i], Ghost(total_chars(lv)));
        let c1 = if c > 0 {
            c
        } else {
            1
        };
        let rows = c1 / width + if c1 % width > 0 {
            1
        } else {
            0
        };
        total = total + rows;
        i = i + 1;
    }
    assert(lv.take(i as int) =~= lv);
    total
}

/// The header: the status line, the turn state and how long ago the last
/// tick was.
pub fn header_text(state: &AppState, tick_elapsed_ms: u64) -> (r: String)
    ensures
        r@ == state.status_line@ + " | turn: "@ + state.turn_state.spec_label() + " | last tick "@
            + decimal(tick_elapsed_ms as nat) + " ms ago"@,
{
    let mut r = concat3(state.status_line.as_str(), " | turn: ", state.turn_state.label());
    r.append(" | last tick ");
    let ms = u64_decimal(tick_elapsed_ms);
    r.append(ms.as_str());
    r.append(" ms ago");
    r
}

/// The title of the input box.
pub fn input_title() -> (r: String)
    ensures
        r@ == "Input (Enter sends, "@ + LOCAL_COMMANDS_INLINE@ + " | "@ + CANCEL_SHORTCUT_LABEL@
            + " cancels)"@,
{
    let mut r = concat3("Input (Enter sends, ", LOCAL_COMMANDS_INLINE, " | ");
    r.append(CANCEL_SHORTCUT_LABEL);
    r.append(" cancels)");
    r
}

pub open spec fn sat_add(a: u16, b: u16) -> u16 {
    if a + b > u16::MAX {
        u16::MAX
    } else {
        (a + b) as u16
    }
}

/// Where the terminal cursor goes: inside the input box, after the
/// characters before the input cursor, kept inside the box.
pub open spec fn spec_cursor_position(cursor_chars: int, x: u16, y: u16, width: u16) -> (u16, u16) {
    let before = cursor_chars as u16;
    let max_col: u16 = if width >= 3 { (width - 3) as u16 } else { 0 };
    let col = if before < max_col { before } else { max_col };
    (sat_add(sat_add(x, 1), col), sat_add(y, 1))
}

pub fn cursor_position(input: &InputState, x: u16, y: u16, width: u16) -> (r: (u16, u16))
    requires
        input.well_formed(),
    ensures
        r == spec_cursor_position(input.cursor_char(), x, y, width),
{
    let before = input.cursor_chars() as u16;
    let max_col = width.saturating_sub(3);
    let col = if before < max_col {
        before
    } else {
        max_col
    };
    (x.saturating_add(1).saturating_add(col), y.saturating_add(1))
}

} // verus!
