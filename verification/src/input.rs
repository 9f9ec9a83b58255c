//! What a key press does to the session.

use crate::parse::{body_kept, try_parse_selected_message};
use crate::state::{cursor_back, cursor_forth, MarkRead, State};
use crate::storage::Storage;
use vstd::prelude::*;

verus! {

/// The keys that the session tells apart.
#[derive(Debug, PartialEq, Eq, Structural, Clone, Copy)]
pub enum Key {
    Left,
    Right,
    Up,
    Down,
    /// A character typed with the control key held.
    Ctrl(char),
    /// Any other key.
    Other,
}

/// What a key press on the list of messages or on an opened body does.
/// Every key first clears the request to skip the next rendering. Then:
/// control-c asks for the exit; left marks the selected message as read, or
/// closes the opened body; right opens the body of the selected message
/// from its first line and renders it, where the unread set is not empty;
/// up and down move the cursor in the list, or scroll the opened body by
/// one line, and ask to skip the rendering where the body cannot scroll
/// further. Any other key does no more. The outcome holds what is left to
/// do at the provider after left marked a message as read.
pub fn take_key(storage: &mut Storage, state: &mut State, key: Key, width: usize) -> (outcome:
    MarkRead)
    ensures
        *final(storage) == *old(storage),
        old(state).wf() ==> final(state).wf(),
        ({
            let cleared = State { should_skip_render: false, ..*old(state) };
            let viewing = old(state).should_view_message_body;
            let index = old(state).selected_message_index;
            let count = old(state).unread_messages@.len();
            match key {
                Key::Ctrl(c) => outcome is Nothing && if c == 'c' {
                    *final(state) == State { should_exit: true, ..cleared }
                } else {
                    *final(state) == cleared
                },
                Key::Left => if viewing {
                    outcome is Nothing && *final(state) == State {
                        should_view_message_body: false,
                        ..cleared
                    }
                } else if index < count {
                    final(state).removed_at(&cleared, index as int) && State::confirms(
                        outcome,
                        old(state).unread_messages@[index as int],
                        old(storage),
                    )
                } else {
                    outcome is Nothing && *final(state) == cleared
                },
                Key::Right => outcome is Nothing && if count > 0 && !viewing {
                    let opened = State {
                        cursor_height: 0,
                        should_view_message_body: true,
                        ..cleared
                    };
                    if index < count {
                        &&& body_kept(
                            old(state).parsed_message_bodies@,
                            old(state).unread_messages@[index as int],
                            width,
                            final(state).parsed_message_bodies@,
                        )
                        &&& final(state).unread_messages == opened.unread_messages
                        &&& final(state).selected_message_index == index
                        &&& final(state).same_view_flags(&opened)
                    } else {
                        *final(state) == opened
                    }
                } else {
                    *final(state) == cleared
                },
                Key::Up => outcome is Nothing && if !viewing {
                    *final(state) == State { selected_message_index: cursor_back(index), ..cleared }
                } else if old(state).cursor_height > 0 {
                    *final(state) == State {
                        cursor_height: (old(state).cursor_height - 1) as usize,
                        ..cleared
                    }
                } else {
                    *final(state) == State { should_skip_render: true, ..cleared }
                },
                Key::Down => outcome is Nothing && if !viewing {
                    *final(state) == State {
                        selected_message_index: cursor_forth(index, count),
                        ..cleared
                    }
                } else if old(state).cursor_height < usize::MAX {
                    *final(state) == State {
                        cursor_height: (old(state).cursor_height + 1) as usize,
                        ..cleared
                    }
                } else {
                    *final(state) == State { should_skip_render: true, ..cleared }
                },
                Key::Other => outcome is Nothing && *final(state) == cleared,
            }
        }),
{
    state.should_skip_render = false;
    match key {
        Key::Ctrl(c) => {
            if c == 'c' {
                state.should_exit = true;
            }
            MarkRead::Nothing
        },
        Key::Left => {
            if !state.should_view_message_body {
                state.set_selected_message_as_read(storage)
            } else {
                state.should_view_message_body = false;
                MarkRead::Nothing
            }
        },
        Key::Right => {
            if state.unread_messages.len() > 0 {
                if !state.should_view_message_body {
                    state.cursor_height = 0;
                    state.should_view_message_body = true;
                    try_parse_selected_message(state, width);
                }
            }
            MarkRead::Nothing
        },
        Key::Up => {
            if !state.should_view_message_body {
                state.decrease_selected_message_index();
            } else if state.cursor_height > 0 {
                state.cursor_height -= 1;
            } else {
                state.should_skip_render = true;
            }
            MarkRead::Nothing
        },
        Key::Down => {
            if !state.should_view_message_body {
                state.increase_selected_message_index();
            } else if state.cursor_height < usize::MAX {
                state.cursor_height += 1;
            } else {
                state.should_skip_render = true;
            }
            MarkRead::Nothing
        },
        Key::Other => MarkRead::Nothing,
    }
}

} // verus!
