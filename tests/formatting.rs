use tgt_dispatch::formatting::{
    format_message_content, span_to_lines, spans_to_lines, split_text, EntityKind, SpanStyle,
    StyledSpan, TextEntity,
};
use tgt_dispatch::message_entry::{DateTimeEntry, MessageEntry, MessageSender};

fn span(text: &str, style: SpanStyle) -> StyledSpan {
    StyledSpan { text: text.to_string(), style }
}

fn entity(offset: i32, length: i32, kind: EntityKind) -> TextEntity {
    TextEntity { offset, length, kind }
}

#[test]
fn splits_at_newlines() {
    assert_eq!(split_text("a\nb"), vec!["a".to_string(), "b".to_string()]);
    assert_eq!(split_text(""), vec!["".to_string()]);
    assert_eq!(split_text("x\n"), vec!["x".to_string(), "".to_string()]);
}

#[test]
fn span_lines_keep_the_style() {
    assert_eq!(
        span_to_lines("a\nbc", SpanStyle::Bold),
        vec![span("a", SpanStyle::Bold), span("bc", SpanStyle::Bold)]
    );
}

#[test]
fn plain_text_without_entities() {
    assert_eq!(
        format_message_content("hi\nthere", &vec![]),
        vec![span("hi", SpanStyle::Plain), span("there", SpanStyle::Plain)]
    );
}

#[test]
fn bold_entity_is_styled() {
    assert_eq!(
        format_message_content("hello world", &vec![entity(6, 5, EntityKind::Bold)]),
        vec![span("hello ", SpanStyle::Plain), span("world", SpanStyle::Bold)]
    );
}

#[test]
fn italic_and_underline_entities() {
    assert_eq!(
        format_message_content("abcd", &vec![entity(1, 2, EntityKind::Italic)]),
        vec![span("a", SpanStyle::Plain), span("bc", SpanStyle::Italic), span("d", SpanStyle::Plain)]
    );
    assert_eq!(
        format_message_content("abcd", &vec![entity(0, 1, EntityKind::Underline)]),
        vec![span("a", SpanStyle::Underlined), span("bcd", SpanStyle::Plain)]
    );
}

#[test]
fn unstyled_entity_contributes_only_its_surroundings() {
    assert_eq!(
        format_message_content("abc", &vec![entity(1, 1, EntityKind::Other)]),
        vec![span("a", SpanStyle::Plain), span("c", SpanStyle::Plain)]
    );
}

#[test]
fn each_entity_contributes_its_own_spans() {
    assert_eq!(
        format_message_content(
            "ab",
            &vec![entity(0, 1, EntityKind::Bold), entity(1, 1, EntityKind::Italic)]
        ),
        vec![
            span("a", SpanStyle::Bold),
            span("b", SpanStyle::Plain),
            span("a", SpanStyle::Plain),
            span("b", SpanStyle::Italic),
        ]
    );
}

#[test]
fn entity_out_of_range_is_clamped() {
    assert_eq!(
        format_message_content("abc", &vec![entity(-1, 2, EntityKind::Italic)]),
        vec![span("abc", SpanStyle::Plain)]
    );
    assert_eq!(
        format_message_content("abc", &vec![entity(1, 50, EntityKind::Bold)]),
        vec![span("a", SpanStyle::Plain), span("bc", SpanStyle::Bold)]
    );
    assert_eq!(
        format_message_content("abc", &vec![entity(1, -3, EntityKind::Bold)]),
        vec![span("a", SpanStyle::Plain), span("bc", SpanStyle::Bold)]
    );
}

#[test]
fn nothing_left_becomes_one_empty_line() {
    assert_eq!(
        format_message_content("", &vec![entity(0, 0, EntityKind::Bold)]),
        vec![span("", SpanStyle::Plain)]
    );
    assert_eq!(spans_to_lines(&vec![]), vec![span("", SpanStyle::Plain)]);
}

#[test]
fn styled_span_with_newline_splits() {
    assert_eq!(
        format_message_content("x\ny", &vec![entity(0, 3, EntityKind::Bold)]),
        vec![span("x", SpanStyle::Bold), span("y", SpanStyle::Bold)]
    );
}

#[test]
fn message_holds_formatted_lines() {
    let mut m = MessageEntry::new(1, MessageSender::User(1), DateTimeEntry { timestamp: 0 }, false);
    m.set_message_content("hello world", &vec![entity(6, 5, EntityKind::Bold)]);
    assert_eq!(m.lines().len(), 2);
    assert_eq!(m.lines()[1], span("world", SpanStyle::Bold));
    assert_eq!(m.message_content_to_string(), "hello \nworld");
}
