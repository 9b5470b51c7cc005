//! Markdown lines as styled spans.

use astrid::markdown::{markdown_to_spans, parse_inline_markdown, SpanStyle, StyledSpan};

fn sp(style: SpanStyle, text: &str) -> StyledSpan {
    StyledSpan { style, text: text.to_string() }
}

#[test]
fn inline_bold_and_code() {
    assert_eq!(
        parse_inline_markdown("use **care** with `rm -rf`!"),
        vec![
            sp(SpanStyle::Text, "use "),
            sp(SpanStyle::Bold, "care"),
            sp(SpanStyle::Text, " with "),
            sp(SpanStyle::Code, "rm -rf"),
            sp(SpanStyle::Text, "!"),
        ]
    );
}

#[test]
fn unclosed_markers_run_to_the_end() {
    assert_eq!(parse_inline_markdown("a **b"), vec![sp(SpanStyle::Text, "a "), sp(SpanStyle::Bold, "b")]);
    assert_eq!(parse_inline_markdown("`x"), vec![sp(SpanStyle::Code, "x")]);
    assert_eq!(parse_inline_markdown("****"), vec![sp(SpanStyle::Bold, "")]);
    assert_eq!(parse_inline_markdown("a*b"), vec![sp(SpanStyle::Text, "a*b")]);
    assert_eq!(parse_inline_markdown("``"), vec![sp(SpanStyle::Code, "")]);
}

#[test]
fn empty_line_is_one_empty_span() {
    assert_eq!(parse_inline_markdown(""), vec![sp(SpanStyle::Text, "")]);
    assert_eq!(markdown_to_spans(""), vec![sp(SpanStyle::Text, "")]);
}

#[test]
fn headings() {
    assert_eq!(markdown_to_spans("## Setup **now**"), vec![sp(SpanStyle::Heading, "Setup **now**")]);
    assert_eq!(markdown_to_spans("  # Title"), vec![sp(SpanStyle::Heading, "Title")]);
    assert_eq!(markdown_to_spans("### x"), vec![sp(SpanStyle::Heading, "x")]);
    assert_eq!(markdown_to_spans("#no space"), vec![sp(SpanStyle::Text, "#no space")]);
}

#[test]
fn list_items_keep_their_indent() {
    assert_eq!(
        markdown_to_spans("  - item `a`"),
        vec![sp(SpanStyle::Marker, "    \u{2022} "), sp(SpanStyle::Text, "item "), sp(SpanStyle::Code, "a")]
    );
    assert_eq!(
        markdown_to_spans("* star"),
        vec![sp(SpanStyle::Marker, "  \u{2022} "), sp(SpanStyle::Text, "star")]
    );
    assert_eq!(
        markdown_to_spans(" 3. third"),
        vec![sp(SpanStyle::Marker, " 3. "), sp(SpanStyle::Text, "third")]
    );
    assert_eq!(markdown_to_spans("12. twelve"), vec![sp(SpanStyle::Text, "12. twelve")]);
    assert_eq!(markdown_to_spans("- "), vec![sp(SpanStyle::Marker, "  \u{2022} "), sp(SpanStyle::Text, "")]);
}

#[test]
fn plain_line_keeps_leading_whitespace() {
    assert_eq!(markdown_to_spans("  plain **b**"), vec![sp(SpanStyle::Text, "  plain "), sp(SpanStyle::Bold, "b")]);
}
