use dashboard::mail::{Message, Recipient};
use dashboard::parse::{
    clean_rendered_text, parse_message_body, remove_empty_lines, try_parse_selected_message,
};
use dashboard::state::State;

fn cleaned_lines(text: &str) -> String {
    let mut text = text.to_string();
    remove_empty_lines(&mut text);
    text
}

fn message(id: &str, body: &str) -> Message {
    Message {
        id: id.to_string(),
        mailbox_id: "box-a".to_string(),
        subject: "Hi".to_string(),
        body: body.to_string(),
        from: Recipient { address: "alice@example.com".to_string(), name: "Alice".to_string() },
        to: vec![],
        date: 0,
    }
}

#[test]
fn space_at_the_end_of_a_line_is_removed() {
    assert_eq!(cleaned_lines("a \r\nb"), "a\r\nb");
    assert_eq!(cleaned_lines("a   \r\nb  \r\n"), "a\r\nb\r\n");
    assert_eq!(cleaned_lines(" \r\n"), "\r\n");
}

#[test]
fn empty_lines_are_removed() {
    assert_eq!(cleaned_lines("a\r\n\r\nb"), "a\r\nb");
    assert_eq!(cleaned_lines("a\r\n\r\n\r\n\r\nb\r\n\r\n"), "a\r\nb\r\n");
    assert_eq!(cleaned_lines("\r\n\r\n"), "\r\n");
}

#[test]
fn lines_of_spaces_are_removed() {
    assert_eq!(cleaned_lines("a \r\n  \r\n \r\nb"), "a\r\nb");
}

#[test]
fn other_text_stays() {
    assert_eq!(cleaned_lines(""), "");
    assert_eq!(cleaned_lines("a b\r\n c"), "a b\r\n c");
    assert_eq!(cleaned_lines("a \n\nb \r"), "a \n\nb \r");
    assert_eq!(cleaned_lines("a\r\n\n\r\nb"), "a\r\n\n\r\nb");
    assert_eq!(cleaned_lines("gr\u{fc}n \r\n\r\n\u{2502}"), "gr\u{fc}n\r\n\u{2502}");
}

#[test]
fn rendered_text_is_cleaned() {
    assert_eq!(clean_rendered_text("x  \n\ny\n"), "x\r\ny\r\n");
    assert_eq!(clean_rendered_text("a\nb"), "a\r\nb");
    assert_eq!(clean_rendered_text("a\r\nb"), "a\r\r\nb");
    assert_eq!(
        clean_rendered_text("\u{2500}\u{252c}\u{2500}\na\u{2502}b\n\u{2500}\u{2534}\u{2500}\n"),
        "\r\na\u{2502}b\r\n"
    );
    assert_eq!(clean_rendered_text(""), "");
}

#[test]
fn html_body_is_rendered_and_cleaned() {
    assert_eq!(parse_message_body("<p>Hello world</p>", 80), Some("Hello world\r\n".to_string()));
    assert_eq!(
        parse_message_body("<p>Hello</p><p>world</p>", 80),
        Some("Hello\r\nworld\r\n".to_string())
    );
    assert_eq!(
        parse_message_body("<h1>Title</h1><p>one two three four five six seven</p>", 12),
        Some("# Title\r\none two\r\nthree four\r\nfive six\r\nseven\r\n".to_string())
    );
}

#[test]
fn table_is_rendered_without_its_rules() {
    let html = "<table><tr><td>a</td><td>b</td></tr><tr><td>c</td><td>d</td></tr></table>";
    let text = parse_message_body(html, 20).unwrap();
    assert_eq!(text, "\r\na\u{2502}b\r\n\u{253c}\r\nc\u{2502}d\r\n");
    assert!(!text.contains('\u{2500}'));
    assert!(!text.contains('\u{2534}'));
    assert!(!text.contains('\u{252c}'));
}

#[test]
fn body_cannot_be_rendered_at_width_zero() {
    assert_eq!(parse_message_body("<p>Hello world</p>", 0), None);
}

#[test]
fn selected_body_is_rendered_once_and_kept() {
    let mut state = State::new();
    state.unread_messages = vec![message("m1", "<p>one</p>"), message("m2", "<p>two</p>")];
    state.selected_message_index = 1;
    try_parse_selected_message(&mut state, 80);
    assert_eq!(state.parsed_message_bodies.len(), 1);
    assert_eq!(state.parsed_message_bodies.get("m2"), Some(&"two\r\n".to_string()));
    state.unread_messages[1].body = "<p>changed</p>".to_string();
    try_parse_selected_message(&mut state, 80);
    assert_eq!(state.parsed_message_bodies.get("m2"), Some(&"two\r\n".to_string()));
    assert_eq!(state.selected_message_index, 1);
    assert_eq!(state.unread_messages.len(), 2);
}

#[test]
fn nothing_is_kept_without_a_selected_message() {
    let mut state = State::new();
    try_parse_selected_message(&mut state, 80);
    assert_eq!(state.parsed_message_bodies.len(), 0);
    state.unread_messages = vec![message("m1", "<p>one</p>")];
    state.selected_message_index = 1;
    try_parse_selected_message(&mut state, 80);
    assert_eq!(state.parsed_message_bodies.len(), 0);
}

#[test]
fn nothing_is_kept_for_a_body_that_cannot_be_rendered() {
    let mut state = State::new();
    state.unread_messages = vec![message("m1", "<p>one</p>")];
    try_parse_selected_message(&mut state, 0);
    assert_eq!(state.parsed_message_bodies.len(), 0);
}
