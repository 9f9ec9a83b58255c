//! Message bodies as text for the terminal: the body's HTML is rendered as
//! text, the text is cleaned, and the result is kept by message id.

use crate::mail::Message;
use crate::state::State;
use crate::text::{
    chars_of, find, first_occurrence, lemma_first_occurrence_from, occurs_at, string_of,
};
use vstd::prelude::*;

verus! {

/// A space at the end of a line.
pub const TRAILING_SPACE: &'static str = " \r\n";

/// An empty line: a line break that follows a line break.
pub const EMPTY_LINE: &'static str = "\r\n\r\n";

/// `s` after `count` characters were deleted at the first occurrence of
/// `pat`, again and again until `pat` occurs no more.
pub open spec fn squeezed(s: Seq<char>, pat: Seq<char>, count: int) -> Seq<char>
    decreases s.len(),
{
    match first_occurrence(s, pat) {
        Some(i) => if 0 <= i && 0 < count && i + count <= s.len() {
            squeezed(s.take(i) + s.skip(i + count), pat, count)
        } else {
            s
        },
        None => s,
    }
}

/// `s` without spaces at the end of lines and without empty lines: first
/// the space before a line break is deleted wherever one stands, then the
/// first of two line breaks in a row is deleted wherever two stand.
pub open spec fn without_empty_lines(s: Seq<char>) -> Seq<char> {
    squeezed(squeezed(s, TRAILING_SPACE@, 1), EMPTY_LINE@, 2)
}

/// In what `squeezed` leaves, the pattern occurs no more.
pub proof fn lemma_squeezed_holds_none(s: Seq<char>, pat: Seq<char>, count: int)
    requires
        0 < count <= pat.len(),
    ensures
        first_occurrence(squeezed(s, pat, count), pat) is None,
    decreases s.len(),
{
    lemma_first_occurrence_from(s, pat, 0);
    match first_occurrence(s, pat) {
        Some(i) => {
            lemma_squeezed_holds_none(s.take(i) + s.skip(i + count), pat, count);
        },
        None => {},
    }
}

/// Deleting empty lines from a text without spaces at the end of lines
/// leaves no space at the end of a line.
pub proof fn lemma_no_trailing_space_returns(s: Seq<char>)
    requires
        first_occurrence(s, TRAILING_SPACE@) is None,
    ensures
        first_occurrence(squeezed(s, EMPTY_LINE@, 2), TRAILING_SPACE@) is None,
    decreases s.len(),
{
    reveal_strlit(" \r\n");
    reveal_strlit("\r\n\r\n");
    let space = TRAILING_SPACE@;
    let empty = EMPTY_LINE@;
    lemma_first_occurrence_from(s, empty, 0);
    lemma_first_occurrence_from(s, space, 0);
    match first_occurrence(s, empty) {
        Some(i) => {
            let t = s.take(i) + s.skip(i + 2);
            // The two line breaks at position `i`, character by character.
            assert(s.subrange(i, i + 4)[0] == s[i]);
            assert(s.subrange(i, i + 4)[1] == s[i + 1]);
            assert(s.subrange(i, i + 4)[2] == s[i + 2]);
            assert forall|j: int| 0 <= j implies !occurs_at(t, space, j) by {
                if occurs_at(t, space, j) {
                    assert(t.subrange(j, j + 3)[0] == t[j]);
                    assert(t.subrange(j, j + 3)[1] == t[j + 1]);
                    assert(t.subrange(j, j + 3)[2] == t[j + 2]);
                    if j + 3 <= i {
                        // Wholly before the deleted line break: it stood in `s`.
                        assert(s.subrange(j, j + 3) =~= space);
                        assert(occurs_at(s, space, j));
                    } else if j >= i {
                        // Wholly after it: it stood in `s` two places on.
                        assert(s.subrange(j + 2, j + 5) =~= space);
                        assert(occurs_at(s, space, j + 2));
                    } else if j == i - 1 {
                        // Its line break is the one that stayed: the same
                        // three characters stood in `s` at the same place.
                        assert(s.subrange(j, j + 3) =~= space);
                        assert(occurs_at(s, space, j));
                    } else {
                        // Its line feed would be the carriage return at `i`.
                        assert(t[j + 2] == s[i]);
                    }
                }
            }
            lemma_first_occurrence_from(t, space, 0);
            lemma_no_trailing_space_returns(t);
        },
        None => {},
    }
}

/// Deletes `count` characters at the first occurrence of `pat`, again and
/// again until `pat` occurs no more.
fn squeeze(chars: &mut Vec<char>, pat: &Vec<char>, count: usize)
    requires
        0 < count <= pat.len(),
    ensures
        final(chars)@ == squeezed(old(chars)@, pat@, count as int),
{
    loop
        invariant
            0 < count <= pat.len(),
            squeezed(chars@, pat@, count as int) == squeezed(old(chars)@, pat@, count as int),
        ensures
            chars@ == squeezed(old(chars)@, pat@, count as int),
        decreases chars.len(),
    {
        match find(chars, pat) {
            Some(at) => {
                let ghost before = chars@;
                let mut k: usize = 0;
                while k < count
                    invariant
                        k <= count,
                        at + count <= before.len(),
                        chars@ == before.take(at as int) + before.skip(at + k),
                    decreases count - k,
                {
                    chars.remove(at);
                    k += 1;
                }
            },
            None => {
                break ;
            },
        }
    }
}

/// Deletes the space at the end of every line and every empty line.
pub fn remove_empty_lines(string: &mut String)
    ensures
        final(string)@ == without_empty_lines(old(string)@),
        first_occurrence(final(string)@, TRAILING_SPACE@) is None,
        first_occurrence(final(string)@, EMPTY_LINE@) is None,
{
    let mut chars = chars_of(string.as_str());
    let trailing_space = chars_of(TRAILING_SPACE);
    let empty_line = chars_of(EMPTY_LINE);
    proof {
        reveal_strlit(" \r\n");
        reveal_strlit("\r\n\r\n");
    }
    squeeze(&mut chars, &trailing_space, 1);
    squeeze(&mut chars, &empty_line, 2);
    proof {
        lemma_squeezed_holds_none(old(string)@, TRAILING_SPACE@, 1);
        lemma_no_trailing_space_returns(squeezed(old(string)@, TRAILING_SPACE@, 1));
        lemma_squeezed_holds_none(squeezed(old(string)@, TRAILING_SPACE@, 1), EMPTY_LINE@, 2);
    }
    *string = string_of(&chars);
}

/// Whether `c` is one of the box-drawing characters that are dropped from
/// a rendered body: the horizontal rule and the two junctions on it.
pub open spec fn is_rule(c: char) -> bool {
    c == '\u{2500}' || c == '\u{2534}' || c == '\u{252c}'
}

/// `s` with a carriage return before every line feed.
pub open spec fn with_carriage_returns(s: Seq<char>) -> Seq<char>
    decreases s.len(),
{
    if s.len() == 0 {
        s
    } else if s.last() == '\n' {
        with_carriage_returns(s.drop_last()).push('\r').push('\n')
    } else {
        with_carriage_returns(s.drop_last()).push(s.last())
    }
}

/// `s` without its rule characters.
pub open spec fn without_rules(s: Seq<char>) -> Seq<char>
    decreases s.len(),
{
    if s.len() == 0 {
        s
    } else if is_rule(s.last()) {
        without_rules(s.drop_last())
    } else {
        without_rules(s.drop_last()).push(s.last())
    }
}

/// The text that is shown for a rendered body: every line feed gets a
/// carriage return before it, the rule characters are dropped, and spaces
/// at the end of lines and empty lines are deleted.
pub open spec fn cleaned(rendered: Seq<char>) -> Seq<char> {
    without_empty_lines(without_rules(with_carriage_returns(rendered)))
}

/// `s` with a carriage return before every line feed.
fn add_carriage_returns(s: &Vec<char>) -> (out: Vec<char>)
    ensures
        out@ == with_carriage_returns(s@),
{
    let mut out: Vec<char> = Vec::new();
    let mut i: usize = 0;
    while i < s.len()
        invariant
            i <= s.len(),
            out@ == with_carriage_returns(s@.take(i as int)),
        decreases s.len() - i,
    {
        proof {
            assert(s@.take(i + 1).drop_last() =~= s@.take(i as int));
        }
        if s[i] == '\n' {
            out.push('\r');
            out.push('\n');
        } else {
            out.push(s[i]);
        }
        i += 1;
    }
    proof {
        assert(s@.take(s@.len() as int) =~= s@);
    }
    out
}

/// `s` without its rule characters.
fn drop_rules(s: &Vec<char>) -> (out: Vec<char>)
    ensures
        out@ == without_rules(s@),
{
    let mut out: Vec<char> = Vec::new();
    let mut i: usize = 0;
    while i < s.len()
        invariant
            i <= s.len(),
            out@ == without_rules(s@.take(i as int)),
        decreases s.len() - i,
    {
        proof {
            assert(s@.take(i + 1).drop_last() =~= s@.take(i as int));
        }
        let c = s[i];
        if !(c == '\u{2500}' || c == '\u{2534}' || c == '\u{252c}') {
            out.push(c);
        }
        i += 1;
    }
    proof {
        assert(s@.take(s@.len() as int) =~= s@);
    }
    out
}

/// Cleans the text that a body was rendered to.
pub fn clean_rendered_text(rendered: &str) -> (text: String)
    ensures
        text@ == cleaned(rendered@),
        first_occurrence(text@, TRAILING_SPACE@) is None,
        first_occurrence(text@, EMPTY_LINE@) is None,
{
    let chars = chars_of(rendered);
    let broken = add_carriage_returns(&chars);
    let plain = drop_rules(&broken);
    let mut text = string_of(&plain);
    remove_empty_lines(&mut text);
    text
}

/// `html2text::Error`, the error of `html2text::from_read`; nothing is
/// known of a value of it.
#[verifier::external_type_specification]
#[verifier::external_body]
pub struct ExHtmlError(html2text::Error);

/// The text that the HTML `body` renders to when it is wrapped to `width`
/// columns, or `None` where it cannot be rendered at that width.
pub uninterp spec fn html_text(body: Seq<char>, width: usize) -> Option<Seq<char>>;

/// Renders the HTML `body` as text wrapped to `width` columns, with
/// `html2text::from_read` on the bytes of `body`. The rendering reads
/// nothing but its two arguments, so the outcome is named by [`html_text`];
/// nothing more is claimed of it.
#[verifier::external_body]
fn render_html(body: &str, width: usize) -> (rendered: Result<String, html2text::Error>)
    ensures
        match rendered {
            Ok(text) => html_text(body@, width) == Some(text@),
            Err(_) => html_text(body@, width) is None,
        },
{
    html2text::from_read(body.as_bytes(), width)
}

/// The text that is shown for the HTML `body` on a terminal of `width`
/// columns: the rendered body, cleaned. There is none where the body
/// cannot be rendered at that width.
pub fn parse_message_body(body: &str, width: usize) -> (text: Option<String>)
    ensures
        match text {
            Some(t) => html_text(body@, width) matches Some(rendered) && t@ == cleaned(rendered),
            None => html_text(body@, width) is None,
        },
{
    match render_html(body, width) {
        Ok(rendered) => Some(clean_rendered_text(rendered.as_str())),
        Err(_) => None,
    }
}

/// How the kept texts change when the body of `message` is to be shown on
/// a terminal of `width` columns: a text that is kept under the message's
/// id stays; else the cleaned rendering of the body is kept under that id;
/// where the body cannot be rendered, nothing is kept for it.
pub open spec fn body_kept(
    kept: Map<Seq<char>, String>,
    message: Message,
    width: usize,
    after: Map<Seq<char>, String>,
) -> bool {
    if kept.contains_key(message.id@) {
        after == kept
    } else {
        match html_text(message.body@, width) {
            Some(rendered) => exists|text: String|
                text@ == cleaned(rendered) && after == kept.insert(message.id@, text),
            None => after == kept,
        }
    }
}

/// Renders the body of the selected message for a terminal of `width`
/// columns and keeps the text under the message's id, unless a text is
/// kept under that id already. Nothing changes where the cursor points at
/// no message, or where the body cannot be rendered.
pub fn try_parse_selected_message(state: &mut State, width: usize)
    ensures
        final(state).unread_messages == old(state).unread_messages,
        final(state).selected_message_index == old(state).selected_message_index,
        final(state).same_view_flags(old(state)),
        old(state).selected_message_index >= old(state).unread_messages@.len() ==> *final(state)
            == *old(state),
        old(state).selected_message_index < old(state).unread_messages@.len() ==> body_kept(
            old(state).parsed_message_bodies@,
            old(state).unread_messages@[old(state).selected_message_index as int],
            width,
            final(state).parsed_message_bodies@,
        ),
        old(state).wf() ==> final(state).wf(),
{
    if state.selected_message_index >= state.unread_messages.len() {
        return ;
    }
    let selected_message_id = state.unread_messages[state.selected_message_index].id.clone();
    if state.parsed_message_bodies.contains_key(selected_message_id.as_str()) {
        return ;
    }
    let parsed = parse_message_body(
        state.unread_messages[state.selected_message_index].body.as_str(),
        width,
    );
    match parsed {
        Some(text) => {
            state.parsed_message_bodies.insert(selected_message_id, text);
        },
        None => {},
    }
}

} // verus!
