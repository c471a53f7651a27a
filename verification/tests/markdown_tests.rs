use maky::app::markdown::{render_markdown_lines, Color, StyledLine, TextStyle};

fn line_text(line: &StyledLine) -> String {
    line.spans.iter().map(|span| span.content.as_str()).collect::<String>()
}

fn span_has(line: &StyledLine, text: &str, check: impl Fn(&TextStyle) -> bool) -> bool {
    line.spans.iter().any(|span| span.content.contains(text) && check(&span.style))
}

fn green() -> TextStyle {
    TextStyle::plain().with_fg(Color::Green)
}

#[test]
fn emphasis_and_strong_markers_apply_style_modifiers() {
    let lines = render_markdown_lines("plain *italic* **bold** `code`", green());

    assert_eq!(line_text(&lines[0]), "plain italic bold code");
    assert!(span_has(&lines[0], "italic", |s| s.italic));
    assert!(span_has(&lines[0], "bold", |s| s.bold));
    assert!(span_has(&lines[0], "code", |s| s.fg == Some(Color::Yellow)));
}

#[test]
fn bullet_and_ordered_lists_include_markers() {
    let lines = render_markdown_lines("- alpha\n- beta\n\n3. gamma\n4. delta", TextStyle::plain());

    assert_eq!(line_text(&lines[0]), "- alpha");
    assert_eq!(line_text(&lines[1]), "- beta");
    assert_eq!(line_text(&lines[2]), "");
    assert_eq!(line_text(&lines[3]), "3. gamma");
    assert_eq!(line_text(&lines[4]), "4. delta");
}

#[test]
fn fenced_code_blocks_render_indented_lines() {
    let lines = render_markdown_lines(
        "```rust\nlet value = 42;\nprintln!(\"{value}\");\n```",
        green(),
    );

    assert_eq!(line_text(&lines[0]), "    let value = 42;");
    assert_eq!(line_text(&lines[1]), "    println!(\"{value}\");");
    assert!(span_has(&lines[0], "let value = 42;", |s| s.fg == Some(Color::Yellow)));
}

#[test]
fn headings_are_bold_and_followed_by_a_gap() {
    let lines = render_markdown_lines("# Title\n\nbody", TextStyle::plain());
    assert_eq!(line_text(&lines[0]), "Title");
    assert!(lines[0].spans.iter().all(|s| s.style.bold));
    assert_eq!(line_text(&lines[1]), "");
    assert_eq!(line_text(&lines[2]), "body");
    assert_eq!(lines.len(), 3);
}

#[test]
fn strikethrough_task_lists_and_rules_render() {
    let lines = render_markdown_lines("- [x] done ~~old~~\n\n---", TextStyle::plain());
    assert_eq!(line_text(&lines[0]), "- [x] done old");
    assert!(span_has(&lines[0], "old", |s| s.crossed_out));
    assert!(span_has(&lines[0], "[x] ", |s| s.bold && s.fg == Some(Color::DarkGray)));
    assert_eq!(line_text(lines.last().expect("rule line")), "────────");
}

#[test]
fn nested_list_items_are_indented() {
    let lines = render_markdown_lines("- outer\n  - inner", TextStyle::plain());
    assert_eq!(line_text(&lines[0]), "- outer");
    assert_eq!(line_text(&lines[1]), "  - inner");
}

#[test]
fn empty_markdown_renders_nothing() {
    assert!(render_markdown_lines("", TextStyle::plain()).is_empty());
}
