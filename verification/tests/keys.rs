use dashboard::input::{take_key, Key};
use dashboard::mail::{Message, Recipient};
use dashboard::outlook::auth::AccessTokenResponse;
use dashboard::outlook::OutlookMailbox;
use dashboard::state::{MarkRead, State};
use dashboard::storage::Storage;

fn storage() -> Storage {
    let auth = AccessTokenResponse {
        access_token: "TA".to_string(),
        token_type: "Bearer".to_string(),
        expires_in: 3600,
        scope: "mail.readwrite".to_string(),
        refresh_token: "R".to_string(),
    };
    Storage { outlook: vec![OutlookMailbox::open("box-a", auth, 10)] }
}

fn message(id: &str) -> Message {
    Message {
        id: id.to_string(),
        mailbox_id: "box-a".to_string(),
        subject: "Hi".to_string(),
        body: format!("<p>body of {}</p>", id),
        from: Recipient { address: "alice@example.com".to_string(), name: "Alice".to_string() },
        to: vec![],
        date: 0,
    }
}

fn listing(selected: usize) -> State {
    let mut state = State::new();
    state.is_loaded = true;
    state.unread_messages = vec![message("m1"), message("m2"), message("m3")];
    state.selected_message_index = selected;
    state.should_skip_render = true;
    state
}

fn viewing(cursor_height: usize) -> State {
    let mut state = listing(1);
    state.should_view_message_body = true;
    state.cursor_height = cursor_height;
    state
}

#[test]
fn control_c_asks_for_the_exit() {
    let mut state = listing(1);
    assert_eq!(take_key(&mut storage(), &mut state, Key::Ctrl('c'), 80), MarkRead::Nothing);
    assert!(state.should_exit);
    assert!(!state.should_skip_render);
    assert_eq!(state.selected_message_index, 1);
    assert_eq!(state.unread_messages.len(), 3);
}

#[test]
fn other_control_keys_do_nothing() {
    let mut state = listing(1);
    assert_eq!(take_key(&mut storage(), &mut state, Key::Ctrl('d'), 80), MarkRead::Nothing);
    assert!(!state.should_exit);
    assert!(!state.should_skip_render);
}

#[test]
fn other_keys_only_clear_the_skip() {
    let mut state = viewing(3);
    assert_eq!(take_key(&mut storage(), &mut state, Key::Other, 80), MarkRead::Nothing);
    assert!(!state.should_skip_render);
    assert!(state.should_view_message_body);
    assert_eq!(state.cursor_height, 3);
    assert_eq!(state.selected_message_index, 1);
    assert!(!state.should_exit);
}

#[test]
fn left_marks_the_selected_message_as_read() {
    let mut state = listing(1);
    let mut storage = storage();
    match take_key(&mut storage, &mut state, Key::Left, 80) {
        MarkRead::Confirm { mailbox: _, call } => {
            assert_eq!(call.url, "https://graph.microsoft.com/v1.0/me/messages/m2");
            assert_eq!(call.authorization, "TA");
        },
        other => panic!("{:?}", other),
    }
    assert_eq!(state.unread_messages, vec![message("m1"), message("m3")]);
    assert_eq!(state.selected_message_index, 0);
    assert!(!state.should_skip_render);
    assert_eq!(storage, self::storage());
}

#[test]
fn left_on_an_empty_list_does_nothing() {
    let mut state = State::new();
    assert_eq!(take_key(&mut storage(), &mut state, Key::Left, 80), MarkRead::Nothing);
    assert!(state.unread_messages.is_empty());
}

#[test]
fn left_closes_the_opened_body() {
    let mut state = viewing(3);
    assert_eq!(take_key(&mut storage(), &mut state, Key::Left, 80), MarkRead::Nothing);
    assert!(!state.should_view_message_body);
    assert_eq!(state.unread_messages.len(), 3);
    assert_eq!(state.cursor_height, 3);
    assert!(!state.should_skip_render);
}

#[test]
fn right_opens_the_selected_body_from_its_first_line() {
    let mut state = listing(2);
    state.cursor_height = 9;
    assert_eq!(take_key(&mut storage(), &mut state, Key::Right, 80), MarkRead::Nothing);
    assert!(state.should_view_message_body);
    assert_eq!(state.cursor_height, 0);
    assert_eq!(state.parsed_message_bodies.get("m3"), Some(&"body of m3\r\n".to_string()));
    assert_eq!(state.parsed_message_bodies.len(), 1);
    assert_eq!(state.selected_message_index, 2);
    assert!(!state.should_skip_render);
}

#[test]
fn right_on_an_opened_body_does_nothing() {
    let mut state = viewing(3);
    assert_eq!(take_key(&mut storage(), &mut state, Key::Right, 80), MarkRead::Nothing);
    assert!(state.should_view_message_body);
    assert_eq!(state.cursor_height, 3);
    assert_eq!(state.parsed_message_bodies.len(), 0);
}

#[test]
fn right_on_an_empty_list_does_nothing() {
    let mut state = State::new();
    assert_eq!(take_key(&mut storage(), &mut state, Key::Right, 80), MarkRead::Nothing);
    assert!(!state.should_view_message_body);
}

#[test]
fn up_and_down_move_the_cursor_in_the_list() {
    let mut state = listing(1);
    take_key(&mut storage(), &mut state, Key::Up, 80);
    assert_eq!(state.selected_message_index, 0);
    take_key(&mut storage(), &mut state, Key::Up, 80);
    assert_eq!(state.selected_message_index, 0);
    assert!(!state.should_skip_render);
    take_key(&mut storage(), &mut state, Key::Down, 80);
    take_key(&mut storage(), &mut state, Key::Down, 80);
    assert_eq!(state.selected_message_index, 2);
    take_key(&mut storage(), &mut state, Key::Down, 80);
    assert_eq!(state.selected_message_index, 2);
    assert_eq!(state.cursor_height, 0);
}

#[test]
fn up_and_down_scroll_the_opened_body() {
    let mut state = viewing(1);
    take_key(&mut storage(), &mut state, Key::Down, 80);
    assert_eq!(state.cursor_height, 2);
    take_key(&mut storage(), &mut state, Key::Up, 80);
    take_key(&mut storage(), &mut state, Key::Up, 80);
    assert_eq!(state.cursor_height, 0);
    assert!(!state.should_skip_render);
    assert_eq!(state.selected_message_index, 1);
}

#[test]
fn up_at_the_first_line_skips_the_rendering() {
    let mut state = viewing(0);
    take_key(&mut storage(), &mut state, Key::Up, 80);
    assert_eq!(state.cursor_height, 0);
    assert!(state.should_skip_render);
}

#[test]
fn down_at_the_last_possible_line_skips_the_rendering() {
    let mut state = viewing(usize::MAX);
    take_key(&mut storage(), &mut state, Key::Down, 80);
    assert_eq!(state.cursor_height, usize::MAX);
    assert!(state.should_skip_render);
}
