//! The text that is written to the terminal for a state of the session.

use crate::mail::Message;
use crate::state::State;
use crate::text::{
    chars_of, decimal, find, first_occurrence, push_decimal, slice_of, string_of,
};
use vstd::prelude::*;
use vstd::string::StringExecFns;

verus! {

/// The escape sequence that puts the cursor at the top left.
pub const HOME: &'static str = "\x1b[1;1H";

/// The escape sequence that clears the screen.
pub const CLEAR: &'static str = "\x1b[2J";

/// The escape sequence that sets the background of the selected message.
pub const HIGHLIGHT: &'static str = "\x1b[48;5;8m";

/// The escape sequence that sets the background back to the default.
pub const RESET: &'static str = "\x1b[49m";

/// The line break of the terminal in raw mode.
pub const LINE_BREAK: &'static str = "\r\n";

/// What is shown before the messages are fetched.
pub const WELCOME: &'static str = "Welcome to dashboard.";

/// What is shown while the tokens are refreshed.
pub const AUTHENTICATING: &'static str = "initialising authentication...\r\n";

/// The number of terminal rows that one message of the list takes.
pub const MESSAGE_HEIGHT: usize = 5;

/// The text of `termion::cursor::Goto(1, 1)`: the cursor position sequence
/// with row 1 and column 1.
#[verifier::external_body]
fn cursor_home() -> (sequence: String)
    ensures
        sequence@ == HOME@,
{
    format!("{}", termion::cursor::Goto(1, 1))
}

/// The text of `termion::clear::All`: the sequence that erases the whole
/// display.
#[verifier::external_body]
fn clear_all() -> (sequence: String)
    ensures
        sequence@ == CLEAR@,
{
    format!("{}", termion::clear::All)
}

/// The text of `termion::color::Bg(termion::color::LightBlack)`: the
/// sequence that sets background colour 8, or nothing at all where colours
/// are switched off for the process.
#[verifier::external_body]
fn background_light_black() -> (sequence: String)
    ensures
        sequence@ == HIGHLIGHT@ || sequence@ == Seq::<char>::empty(),
{
    format!("{}", termion::color::Bg(termion::color::LightBlack))
}

/// The text of `termion::color::Bg(termion::color::Reset)`: the sequence
/// that sets the default background.
#[verifier::external_body]
fn background_reset() -> (sequence: String)
    ensures
        sequence@ == RESET@,
{
    format!("{}", termion::color::Bg(termion::color::Reset))
}

/// `text` as it is written to the terminal: at the top left of a cleared
/// screen.
pub open spec fn framed(text: Seq<char>) -> Seq<char> {
    HOME@ + CLEAR@ + text
}

/// `text` as it is written to the terminal: after the sequences that put
/// the cursor at the top left and clear the screen.
pub fn frame(text: &str) -> (output: String)
    ensures
        output@ == framed(text@),
{
    let mut output = cursor_home();
    let clear = clear_all();
    output.append(clear.as_str());
    output.append(text);
    output
}

/// `count` spaces; none where `count` is not positive.
pub open spec fn spaces(count: int) -> Seq<char> {
    Seq::new(
        if count > 0 {
            count as nat
        } else {
            0
        },
        |i: int| ' ',
    )
}

/// The number of bytes that `text` takes as a string, as `len` gives it.
pub open spec fn byte_length(text: Seq<char>) -> usize {
    vstd::utf8::encode_utf8(text).len() as usize
}

/// `line` filled with spaces until it takes `width` bytes; a line that
/// takes as many or more stays as it is.
pub open spec fn padded(line: Seq<char>, width: usize) -> Seq<char> {
    line + spaces(width - byte_length(line))
}

/// Appends `line` to `content`, and spaces after it until `width` bytes are
/// filled, counting from the number of bytes of `line`.
fn push_padded(content: &mut String, line: &str, width: usize)
    ensures
        final(content)@ == old(content)@ + padded(line@, width),
{
    content.append(line);
    let mut index: usize = line.len();
    let ghost start = content@;
    while index < width
        invariant
            line.len() <= index,
            line.len() < width ==> index <= width,
            line.len() >= width ==> index == line.len(),
            content@ == start + spaces(index - line.len()),
        decreases width - index,
    {
        content.push(' ');
        index += 1;
    }
}

/// The address of the first addressee of `message`; empty where the
/// message has no addressee.
pub open spec fn first_address(message: Message) -> Seq<char> {
    if message.to@.len() > 0 {
        message.to@[0].address@
    } else {
        Seq::empty()
    }
}

/// The line that names the first addressee.
pub open spec fn to_line(message: Message) -> Seq<char> {
    "     to: "@ + first_address(message)
}

/// The line that names the sender.
pub open spec fn from_line(message: Message) -> Seq<char> {
    "   from: "@ + message.from.name@ + " <"@ + message.from.address@ + ">"@
}

/// The line that holds the subject and the date.
pub open spec fn subject_line(message: Message) -> Seq<char> {
    "subject: "@ + message.subject@ + " date: "@ + decimal(message.date as nat)
}

fn make_to_line(message: &Message) -> (line: String)
    ensures
        line@ == to_line(*message),
{
    let mut line = String::from_str("     to: ");
    if message.to.len() > 0 {
        line.append(message.to[0].address.as_str());
    }
    line
}

fn make_from_line(message: &Message) -> (line: String)
    ensures
        line@ == from_line(*message),
{
    let mut line = String::from_str("   from: ");
    line.append(message.from.name.as_str());
    line.append(" <");
    line.append(message.from.address.as_str());
    line.append(">");
    line
}

fn make_subject_line(message: &Message) -> (line: String)
    ensures
        line@ == subject_line(*message),
{
    let mut line = String::from_str("subject: ");
    line.append(message.subject.as_str());
    line.append(" date: ");
    push_decimal(&mut line, message.date);
    line
}

/// The three lines of one message in the list, each filled up to `width`,
/// after an empty line; the selected message stands on `highlight`, and
/// the background is set back after every message.
pub open spec fn message_block(
    message: Message,
    selected: bool,
    width: usize,
    highlight: Seq<char>,
) -> Seq<char> {
    "\r\n\n"@ + (if selected {
        highlight
    } else {
        Seq::empty()
    }) + padded(to_line(message), width) + LINE_BREAK@ + padded(from_line(message), width)
        + LINE_BREAK@ + padded(subject_line(message), width) + RESET@
}

/// Appends the block of one message of the list to `content`.
fn push_message(
    content: &mut String,
    message: &Message,
    selected: bool,
    width: usize,
    highlight: &str,
)
    ensures
        final(content)@ == old(content)@ + message_block(*message, selected, width, highlight@),
{
    content.append("\r\n\n");
    if selected {
        content.append(highlight);
    }
    let to = make_to_line(message);
    push_padded(content, to.as_str(), width);
    content.append(LINE_BREAK);
    let from = make_from_line(message);
    push_padded(content, from.as_str(), width);
    content.append(LINE_BREAK);
    let subject = make_subject_line(message);
    push_padded(content, subject.as_str(), width);
    let reset = background_reset();
    content.append(reset.as_str());
    proof {
        assert(content@ =~= old(content)@ + message_block(
            *message,
            selected,
            width,
            highlight@,
        ));
    }
}

/// The position that the page of the list reaches to: the number of
/// messages that fit the height, but no more than there are, or the
/// cursor where that is further on.
pub open spec fn page_reach(count: usize, selected: usize, height: usize) -> usize {
    let per_page = height / MESSAGE_HEIGHT;
    let shown = if per_page < count {
        per_page
    } else {
        count
    };
    if shown > selected {
        shown
    } else {
        selected
    }
}

/// The position after the last message of the page: one past the reach,
/// but not past the end of the list.
pub open spec fn page_end(count: usize, selected: usize, height: usize) -> usize {
    let reach = page_reach(count, selected, height);
    if reach < count {
        (reach + 1) as usize
    } else {
        count
    }
}

/// The position of the first message of the page: as many messages before
/// the reach as fit the height, but not before the start of the list nor
/// past the page's end.
pub open spec fn page_start(count: usize, selected: usize, height: usize) -> usize {
    let per_page = height / MESSAGE_HEIGHT;
    let reach = page_reach(count, selected, height);
    let from = if per_page >= reach {
        0
    } else {
        (reach - per_page) as usize
    };
    if from < page_end(count, selected, height) {
        from
    } else {
        page_end(count, selected, height)
    }
}

/// The blocks of the messages from position `from` up to, not including,
/// position `end`, in order.
pub open spec fn page_blocks(
    messages: Seq<Message>,
    from: int,
    end: int,
    selected: int,
    width: usize,
    highlight: Seq<char>,
) -> Seq<char>
    decreases end - from,
{
    if end <= from {
        Seq::empty()
    } else {
        page_blocks(messages, from, end - 1, selected, width, highlight) + message_block(
            messages[end - 1],
            end - 1 == selected,
            width,
            highlight,
        )
    }
}

/// The list of messages on a terminal of `width` columns and `height`
/// rows: the blocks of the messages of the page, then a line break.
pub open spec fn messages_text(
    state: State,
    width: usize,
    height: usize,
    highlight: Seq<char>,
) -> Seq<char> {
    let count = state.unread_messages@.len() as usize;
    page_blocks(
        state.unread_messages@,
        page_start(count, state.selected_message_index, height) as int,
        page_end(count, state.selected_message_index, height) as int,
        state.selected_message_index as int,
        width,
        highlight,
    ) + LINE_BREAK@
}

/// The list of messages as text, with `highlight` before the selected
/// message.
pub fn render_messages(state: &State, width: usize, height: usize, highlight: &str) -> (content:
    String)
    ensures
        content@ == messages_text(*state, width, height, highlight@),
{
    let count: usize = state.unread_messages.len();
    let selected: usize = state.selected_message_index;
    let messages_per_page: usize = height / MESSAGE_HEIGHT;
    let shown: usize = if messages_per_page < count {
        messages_per_page
    } else {
        count
    };
    let to_index: usize = if shown > selected {
        shown
    } else {
        selected
    };
    let end: usize = if to_index < count {
        to_index + 1
    } else {
        count
    };
    let from_index: usize = if messages_per_page >= to_index {
        0
    } else {
        to_index - messages_per_page
    };
    let start: usize = if from_index < end {
        from_index
    } else {
        end
    };
    let mut content = String::new();
    let mut i: usize = start;
    proof {
        assert(content@ =~= page_blocks(
            state.unread_messages@,
            start as int,
            i as int,
            selected as int,
            width,
            highlight@,
        ));
    }
    while i < end
        invariant
            start <= i <= end <= state.unread_messages@.len(),
            content@ == page_blocks(
                state.unread_messages@,
                start as int,
                i as int,
                selected as int,
                width,
                highlight@,
            ),
        decreases end - i,
    {
        push_message(&mut content, &state.unread_messages[i], i == selected, width, highlight);
        i += 1;
    }
    content.append(LINE_BREAK);
    content
}

/// The lines of `text`: the pieces between its line breaks. A text
/// without a line break is one line, and so is the empty text.
pub open spec fn split_lines(text: Seq<char>) -> Seq<Seq<char>>
    decreases text.len(),
{
    match first_occurrence(text, LINE_BREAK@) {
        Some(i) => if 0 <= i && LINE_BREAK@.len() > 0 && i + LINE_BREAK@.len() <= text.len() {
            seq![text.take(i)] + split_lines(text.skip(i + LINE_BREAK@.len()))
        } else {
            seq![text]
        },
        None => seq![text],
    }
}

/// The lines with a line break between each two of them.
pub open spec fn joined(lines: Seq<Seq<char>>) -> Seq<char>
    decreases lines.len(),
{
    if lines.len() == 0 {
        Seq::empty()
    } else if lines.len() == 1 {
        lines[0]
    } else {
        joined(lines.drop_last()) + LINE_BREAK@ + lines.last()
    }
}

/// The `rows` lines that follow the first `skip` lines, as far as there
/// are any.
pub open spec fn visible_lines(lines: Seq<Seq<char>>, skip: usize, rows: usize) -> Seq<Seq<char>> {
    let from = if skip < lines.len() {
        skip as int
    } else {
        lines.len() as int
    };
    let to = if from + rows < lines.len() {
        from + rows
    } else {
        lines.len() as int
    };
    lines.subrange(from, to)
}

/// The characters of each line.
pub open spec fn line_views(lines: Seq<Vec<char>>) -> Seq<Seq<char>> {
    lines.map_values(|line: Vec<char>| line@)
}

/// The lines of `text`.
fn lines_of(text: &str) -> (lines: Vec<Vec<char>>)
    ensures
        line_views(lines@) == split_lines(text@),
{
    let line_break = chars_of(LINE_BREAK);
    let mut rest = chars_of(text);
    let mut lines: Vec<Vec<char>> = Vec::new();
    proof {
        reveal_strlit("\r\n");
    }
    loop
        invariant_except_break
            line_break@ == LINE_BREAK@,
            line_break@.len() == 2,
            line_views(lines@) + split_lines(rest@) == split_lines(text@),
        ensures
            line_views(lines@) == split_lines(text@),
        decreases rest@.len(),
    {
        let ghost before = lines@;
        match find(&rest, &line_break) {
            Some(at) => {
                let end: usize = rest.len();
                let line = slice_of(&rest, 0, at);
                let after = slice_of(&rest, at + line_break.len(), end);
                proof {
                    assert(split_lines(rest@) == seq![rest@.take(at as int)] + split_lines(
                        rest@.skip(at + line_break@.len()),
                    ));
                }
                lines.push(line);
                proof {
                    assert(line_views(lines@) =~= line_views(before) + seq![
                        rest@.take(at as int),
                    ]);
                }
                rest = after;
            },
            None => {
                lines.push(rest);
                break ;
            },
        }
    }
    lines
}

/// The lines from position `from` up to, not including, position `to`,
/// with a line break between each two of them.
fn join_lines(lines: &Vec<Vec<char>>, from: usize, to: usize) -> (text: String)
    requires
        from <= to <= lines@.len(),
    ensures
        text@ == joined(line_views(lines@).subrange(from as int, to as int)),
{
    let mut text = String::new();
    let mut i: usize = from;
    let ghost all = line_views(lines@);
    while i < to
        invariant
            from <= i <= to <= lines@.len(),
            all == line_views(lines@),
            text@ == joined(all.subrange(from as int, i as int)),
        decreases to - i,
    {
        if i > from {
            text.append(LINE_BREAK);
        }
        let line = string_of(&lines[i]);
        text.append(line.as_str());
        proof {
            let shown = all.subrange(from as int, i + 1);
            assert(shown.drop_last() =~= all.subrange(from as int, i as int));
        }
        i += 1;
    }
    text
}

/// The text that is kept for the selected message; empty where the cursor
/// points at no message or no text is kept for the message.
pub open spec fn selected_body(state: State) -> Seq<char> {
    if state.selected_message_index < state.unread_messages@.len() {
        let id = state.unread_messages@[state.selected_message_index as int].id@;
        if state.parsed_message_bodies@.contains_key(id) {
            state.parsed_message_bodies@[id]@
        } else {
            Seq::empty()
        }
    } else {
        Seq::empty()
    }
}

/// The opened body on a terminal of `height` rows: the lines of the kept
/// text from the line that the body is scrolled to, as many as there are
/// rows.
pub open spec fn body_text(state: State, height: usize) -> Seq<char> {
    joined(visible_lines(split_lines(selected_body(state)), state.cursor_height, height))
}

/// The opened body as text.
pub fn render_message_body(state: &State, height: usize) -> (content: String)
    ensures
        content@ == body_text(*state, height),
{
    let empty = String::new();
    let body: &String = if state.selected_message_index < state.unread_messages.len() {
        let id = &state.unread_messages[state.selected_message_index].id;
        match state.parsed_message_bodies.get(id.as_str()) {
            Some(text) => text,
            None => &empty,
        }
    } else {
        &empty
    };
    let lines = lines_of(body.as_str());
    let count: usize = lines.len();
    let from: usize = if state.cursor_height < count {
        state.cursor_height
    } else {
        count
    };
    let to: usize = if height < count - from {
        from + height
    } else {
        count
    };
    join_lines(&lines, from, to)
}

/// Everything that is written to the terminal for `state`: first an empty
/// screen, then the welcome where nothing is loaded yet, the opened body
/// where one is opened, and the list of messages otherwise.
pub open spec fn screen_text(
    state: State,
    width: usize,
    height: usize,
    highlight: Seq<char>,
) -> Seq<char> {
    framed(Seq::empty()) + framed(
        if !state.is_loaded {
            WELCOME@
        } else if state.should_view_message_body {
            body_text(state, height)
        } else {
            messages_text(state, width, height, highlight)
        },
    )
}

/// Everything that is written to the terminal for `state`, with
/// `highlight` before the selected message of the list.
pub fn screen_with(state: &State, width: usize, height: usize, highlight: &str) -> (output: String)
    ensures
        output@ == screen_text(*state, width, height, highlight@),
{
    let mut output = frame("");
    proof {
        reveal_strlit("");
    }
    let content = if !state.is_loaded {
        String::from_str(WELCOME)
    } else if state.should_view_message_body {
        render_message_body(state, height)
    } else {
        render_messages(state, width, height, highlight)
    };
    let framed_content = frame(content.as_str());
    output.append(framed_content.as_str());
    output
}

/// Everything that is written to the terminal for `state` on a terminal
/// of `width` columns and `height` rows. The selected message of the list
/// stands on a light black background, unless colours are switched off
/// for the process.
pub fn screen(state: &State, width: usize, height: usize) -> (output: String)
    ensures
        output@ == screen_text(*state, width, height, HIGHLIGHT@) || output@ == screen_text(
            *state,
            width,
            height,
            Seq::empty(),
        ),
{
    let highlight = background_light_black();
    screen_with(state, width, height, highlight.as_str())
}

/// The line that is shown while the mailbox at position `position` of
/// `count` mailboxes is fetched; mailboxes are counted from 1.
pub open spec fn fetch_status(position: usize, count: usize) -> Seq<char> {
    "fetching unread messages from mailboxes ("@ + decimal((position + 1) as nat) + "/"@
        + decimal(count as nat) + ")...\r\n"@
}

/// The line that is shown while the mailbox at position `position` of
/// `count` mailboxes is fetched.
pub fn fetch_status_message(position: usize, count: usize) -> (message: String)
    requires
        position < usize::MAX,
    ensures
        message@ == fetch_status(position, count),
{
    let mut message = String::from_str("fetching unread messages from mailboxes (");
    push_decimal(&mut message, (position + 1) as u64);
    message.append("/");
    push_decimal(&mut message, count as u64);
    message.append(")...\r\n");
    message
}

} // verus!
