use dashboard::mail::{Message, Recipient};
use dashboard::render::{
    fetch_status_message, frame, render_message_body, render_messages, screen, screen_with,
};
use dashboard::state::State;
use dashboard::web::{confirmation_response, get_html_response, response_with};

const HOME_CLEAR: &str = "\x1b[1;1H\x1b[2J";
const ON: &str = "\x1b[48;5;8m";
const OFF: &str = "\x1b[49m";

fn message(id: &str, subject: &str, to: &[&str], date: u64) -> Message {
    Message {
        id: id.to_string(),
        mailbox_id: "box-a".to_string(),
        subject: subject.to_string(),
        body: String::new(),
        from: Recipient { address: "al@x.io".to_string(), name: "Al".to_string() },
        to: to
            .iter()
            .map(|address| Recipient { address: address.to_string(), name: "N".to_string() })
            .collect(),
        date,
    }
}

fn loaded(messages: Vec<Message>, selected: usize) -> State {
    let mut state = State::new();
    state.is_loaded = true;
    state.unread_messages = messages;
    state.selected_message_index = selected;
    state
}

fn block(to: &str, from: &str, subject: &str, highlight: &str) -> String {
    format!("\r\n\n{}{}\r\n{}\r\n{}{}", highlight, to, from, subject, OFF)
}

#[test]
fn frame_puts_the_text_on_a_cleared_screen() {
    assert_eq!(frame("abc"), "\x1b[1;1H\x1b[2Jabc");
    assert_eq!(frame(""), "\x1b[1;1H\x1b[2J");
}

#[test]
fn welcome_is_shown_before_anything_is_loaded() {
    let expected = "\x1b[1;1H\x1b[2J\x1b[1;1H\x1b[2JWelcome to dashboard.";
    assert_eq!(screen(&State::new(), 80, 24), expected);
    assert_eq!(screen_with(&State::new(), 80, 24, ON), expected);
}

#[test]
fn one_message_is_listed_in_three_padded_lines() {
    let state = loaded(vec![message("m1", "Hi", &["bo@x.io", "cy@x.io"], 0)], 0);
    let expected = block(
        "     to: bo@x.io         ",
        "   from: Al <al@x.io>    ",
        "subject: Hi date: 0      ",
        ON,
    ) + "\r\n";
    assert_eq!(render_messages(&state, 25, 24, ON), expected);
}

#[test]
fn long_lines_are_not_cut_and_short_ones_are_filled() {
    let state = loaded(vec![message("m1", "Hi", &[], 1476873420)], 0);
    let expected = block(
        "     to:    ",
        "   from: Al <al@x.io>",
        "subject: Hi date: 1476873420",
        "<",
    ) + "\r\n";
    assert_eq!(render_messages(&state, 12, 24, "<"), expected);
}

#[test]
fn padding_counts_bytes() {
    let state = loaded(vec![message("m1", "\u{e9}t\u{e9}", &[], 5)], 0);
    let text = render_messages(&state, 24, 24, "");
    // 22 bytes in 20 characters: two spaces fill the 24 columns, not four.
    assert!(text.contains("\r\nsubject: \u{e9}t\u{e9} date: 5  \x1b[49m"));
}

#[test]
fn only_the_selected_message_is_highlighted() {
    let state = loaded(
        vec![message("m1", "A", &["b@x"], 1), message("m2", "B", &["c@x"], 2)],
        1,
    );
    let expected = block("     to: b@x", "   from: Al <al@x.io>", "subject: A date: 1", "")
        + &block("     to: c@x", "   from: Al <al@x.io>", "subject: B date: 2", ON)
        + "\r\n";
    assert_eq!(render_messages(&state, 0, 24, ON), expected);
}

#[test]
fn empty_list_is_a_line_break() {
    assert_eq!(render_messages(&loaded(vec![], 0), 80, 24, ON), "\r\n");
}

fn subjects(text: &str) -> Vec<String> {
    text.split("subject: ")
        .skip(1)
        .map(|rest| rest.split(' ').next().unwrap().to_string())
        .collect()
}

fn ten() -> Vec<Message> {
    (0..10).map(|i| message(&format!("m{}", i), &format!("s{}", i), &[], i)).collect()
}

#[test]
fn page_starts_at_the_top_while_the_cursor_is_on_it() {
    let text = render_messages(&loaded(ten(), 0), 0, 15, ON);
    assert_eq!(subjects(&text), ["s0", "s1", "s2", "s3"]);
    let text = render_messages(&loaded(ten(), 3), 0, 15, ON);
    assert_eq!(subjects(&text), ["s0", "s1", "s2", "s3"]);
}

#[test]
fn page_follows_the_cursor() {
    let text = render_messages(&loaded(ten(), 4), 0, 15, ON);
    assert_eq!(subjects(&text), ["s1", "s2", "s3", "s4"]);
    let text = render_messages(&loaded(ten(), 9), 0, 15, ON);
    assert_eq!(subjects(&text), ["s6", "s7", "s8", "s9"]);
    assert!(text.contains(&format!("\n{}     to: ", ON)));
    assert_eq!(text.matches(ON).count(), 1);
}

#[test]
fn page_holds_all_messages_that_fit() {
    let text = render_messages(&loaded(ten(), 9), 0, 50, ON);
    assert_eq!(subjects(&text).len(), 10);
    let text = render_messages(&loaded(ten(), 2), 0, 500, ON);
    assert_eq!(subjects(&text).len(), 10);
}

#[test]
fn page_of_a_terminal_without_rows_shows_the_selected_message() {
    let text = render_messages(&loaded(ten(), 5), 0, 0, ON);
    assert_eq!(subjects(&text), ["s5"]);
    let text = render_messages(&loaded(ten(), 0), 0, 4, ON);
    assert_eq!(subjects(&text), ["s0"]);
}

#[test]
fn cursor_beyond_the_list_shows_no_message() {
    assert_eq!(render_messages(&loaded(ten(), 40), 0, 15, ON), "\r\n");
}

fn opened(body: &str, cursor_height: usize) -> State {
    let mut state = loaded(vec![message("m1", "A", &[], 1), message("m2", "B", &[], 2)], 1);
    state.parsed_message_bodies.insert("m2".to_string(), body.to_string());
    state.parsed_message_bodies.insert("m1".to_string(), "other".to_string());
    state.should_view_message_body = true;
    state.cursor_height = cursor_height;
    state
}

#[test]
fn opened_body_shows_as_many_lines_as_there_are_rows() {
    let body = "l0\r\nl1\r\nl2\r\nl3\r\nl4";
    assert_eq!(render_message_body(&opened(body, 0), 3), "l0\r\nl1\r\nl2");
    assert_eq!(render_message_body(&opened(body, 1), 3), "l1\r\nl2\r\nl3");
    assert_eq!(render_message_body(&opened(body, 3), 3), "l3\r\nl4");
    assert_eq!(render_message_body(&opened(body, 4), 3), "l4");
    assert_eq!(render_message_body(&opened(body, 5), 3), "");
    assert_eq!(render_message_body(&opened(body, usize::MAX), usize::MAX), "");
    assert_eq!(render_message_body(&opened(body, 0), usize::MAX), body);
    assert_eq!(render_message_body(&opened(body, 0), 0), "");
}

#[test]
fn line_break_at_the_end_makes_an_empty_last_line() {
    assert_eq!(render_message_body(&opened("l0\r\nl1\r\n", 0), 5), "l0\r\nl1\r\n");
    assert_eq!(render_message_body(&opened("l0\r\nl1\r\n", 0), 2), "l0\r\nl1");
    assert_eq!(render_message_body(&opened("l0\r\nl1\r\n", 2), 2), "");
    assert_eq!(render_message_body(&opened("l0\nl1\rl2", 0), 1), "l0\nl1\rl2");
}

#[test]
fn body_that_is_not_kept_shows_nothing() {
    let mut state = opened("text", 0);
    state.selected_message_index = 0;
    assert_eq!(render_message_body(&state, 5), "other");
    state.parsed_message_bodies.remove("m1");
    assert_eq!(render_message_body(&state, 5), "");
    state.selected_message_index = 7;
    assert_eq!(render_message_body(&state, 5), "");
}

#[test]
fn screen_shows_the_opened_body() {
    let state = opened("l0\r\nl1\r\nl2", 1);
    let expected = format!("{}{}l1\r\nl2", HOME_CLEAR, HOME_CLEAR);
    assert_eq!(screen(&state, 80, 24), expected);
}

#[test]
fn screen_shows_the_list() {
    let state = loaded(vec![message("m1", "Hi", &["bo@x.io"], 0)], 0);
    let list = |highlight: &str| {
        format!(
            "{}{}{}\r\n",
            HOME_CLEAR,
            HOME_CLEAR,
            block("     to: bo@x.io", "   from: Al <al@x.io>", "subject: Hi date: 0", highlight)
        )
    };
    assert_eq!(screen_with(&state, 10, 24, ON), list(ON));
    assert_eq!(screen_with(&state, 10, 24, ""), list(""));
    let shown = screen(&state, 10, 24);
    assert!(shown == list(ON) || shown == list(""));
}

#[test]
fn status_counts_mailboxes_from_one() {
    assert_eq!(
        fetch_status_message(0, 3),
        "fetching unread messages from mailboxes (1/3)...\r\n"
    );
    assert_eq!(
        fetch_status_message(11, 120),
        "fetching unread messages from mailboxes (12/120)...\r\n"
    );
}

#[test]
fn confirmation_page_is_fixed() {
    assert_eq!(
        get_html_response(),
        "<html><head><title>dashboard</title></head><body><h1>You may now close this window</h1></body></html>"
    );
}

#[test]
fn confirmation_response_carries_the_length_of_the_page() {
    let page = get_html_response();
    assert_eq!(page.len(), 101);
    assert_eq!(
        confirmation_response(),
        format!("HTTP/1.1 200 OK\r\nContent-Length: 101\r\n\r\n{}", page)
    );
}

#[test]
fn content_length_counts_bytes() {
    assert_eq!(response_with(""), "HTTP/1.1 200 OK\r\nContent-Length: 0\r\n\r\n");
    assert_eq!(response_with("abc"), "HTTP/1.1 200 OK\r\nContent-Length: 3\r\n\r\nabc");
    // 13 bytes in 12 characters.
    assert_eq!(
        response_with("gr\u{fc}n 1234567"),
        "HTTP/1.1 200 OK\r\nContent-Length: 13\r\n\r\ngr\u{fc}n 1234567"
    );
}
