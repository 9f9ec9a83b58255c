//! The synchronization coordinator: the unread set, the cursor into it, and
//! the optimistic removal of a message that is marked as read.

use crate::mail::Message;
use crate::outlook::{SetAsReadCall, API_HOST, JSON_CONTENT_TYPE, MESSAGE_ENDPOINT};
use crate::storage::{mailbox_position, Storage};
use vstd::hash_map::StringHashMap;
use vstd::prelude::*;
use vstd::string::StringExecFns;

verus! {

/// What the session holds in memory.
pub struct State {
    /// Whether the unread messages have been fetched.
    pub is_loaded: bool,
    /// The unread set, in the order the messages were fetched.
    pub unread_messages: Vec<Message>,
    /// The rendered bodies of the messages that were opened, by message id.
    pub parsed_message_bodies: StringHashMap<String>,
    /// The position of the selected message in the unread set.
    pub selected_message_index: usize,
    /// The first line of the opened body that is shown.
    pub cursor_height: usize,
    pub should_view_message_body: bool,
    pub should_exit: bool,
    pub should_skip_render: bool,
}

/// What is left to do at the provider after a message was marked as read
/// locally.
#[derive(Debug, PartialEq, Eq)]
pub enum MarkRead {
    /// No message was removed, so nothing is left to do.
    Nothing,
    /// The message was removed; `call` confirms it at the mailbox at
    /// position `mailbox` of the store, which owns the message. The caller
    /// dispatches the call without waiting for it.
    Confirm { mailbox: usize, call: SetAsReadCall },
    /// The message was removed, but no mailbox in the store owns it.
    NoMailbox,
}

/// The first position at or after `from` of a message with the id `id`.
pub open spec fn message_position_from(messages: Seq<Message>, id: Seq<char>, from: int) -> Option<
    int,
>
    decreases messages.len() - from,
{
    if from < 0 || from >= messages.len() {
        None
    } else if messages[from].id@ == id {
        Some(from)
    } else {
        message_position_from(messages, id, from + 1)
    }
}

/// The position of the first message with the id `id`.
pub open spec fn message_position(messages: Seq<Message>, id: Seq<char>) -> Option<int> {
    message_position_from(messages, id, 0)
}

/// The unread set after the message with the id `id` was marked as read:
/// the first message with that id is gone, and the others are where they
/// were relative to each other. A set without such a message stays.
pub open spec fn unread_without(messages: Seq<Message>, id: Seq<char>) -> Seq<Message> {
    match message_position(messages, id) {
        Some(p) => messages.remove(p),
        None => messages,
    }
}

/// The cursor after one step towards the start of the unread set.
pub open spec fn cursor_back(index: usize) -> usize {
    if index > 0 {
        (index - 1) as usize
    } else {
        0
    }
}

/// The cursor after one step towards the end of an unread set of `count`
/// messages.
pub open spec fn cursor_forth(index: usize, count: nat) -> usize {
    if index + 1 < count {
        (index + 1) as usize
    } else {
        index
    }
}

/// `message_position_from` gives the least position at or after `from` of
/// a message with the id, and none only where no message from there on has
/// it.
pub proof fn lemma_message_position_from(messages: Seq<Message>, id: Seq<char>, from: int)
    requires
        0 <= from,
    ensures
        match message_position_from(messages, id, from) {
            Some(i) => from <= i < messages.len() && messages[i].id@ == id && forall|j: int|
                from <= j < i ==> (#[trigger] messages[j]).id@ != id,
            None => forall|j: int|
                from <= j < messages.len() ==> (#[trigger] messages[j]).id@ != id,
        },
    decreases messages.len() - from,
{
    if from < messages.len() && messages[from].id@ != id {
        lemma_message_position_from(messages, id, from + 1);
    }
}

/// A set in which no message has the id holds no position for it.
pub proof fn lemma_message_position_none(messages: Seq<Message>, id: Seq<char>)
    requires
        forall|j: int| 0 <= j < messages.len() ==> (#[trigger] messages[j]).id@ != id,
    ensures
        message_position(messages, id) is None,
{
    lemma_message_position_from(messages, id, 0);
}

/// Marking a message as read in an empty unread set changes nothing.
pub proof fn lemma_mark_read_in_empty_set(messages: Seq<Message>, id: Seq<char>)
    requires
        messages.len() == 0,
    ensures
        unread_without(messages, id) == messages,
{
}

/// Marking a message as read removes exactly one message, one with that
/// id, and leaves all others in their order: those before it stay where
/// they were, those after it move up by one.
pub proof fn lemma_mark_read_removes_one(messages: Seq<Message>, id: Seq<char>)
    requires
        exists|j: int| 0 <= j < messages.len() && (#[trigger] messages[j]).id@ == id,
    ensures
        message_position(messages, id) matches Some(p) && {
            &&& 0 <= p < messages.len()
            &&& messages[p].id@ == id
            &&& unread_without(messages, id).len() == messages.len() - 1
            &&& forall|i: int| 0 <= i < p ==> unread_without(messages, id)[i] == messages[i]
            &&& forall|i: int|
                p <= i < messages.len() - 1 ==> unread_without(messages, id)[i] == messages[i + 1]
        },
{
    lemma_message_position_from(messages, id, 0);
}

/// Marking the same id as read a second time changes nothing, where at most
/// one message of the set has that id.
pub proof fn lemma_mark_read_twice(messages: Seq<Message>, id: Seq<char>)
    requires
        forall|i: int, j: int|
            0 <= i < j < messages.len() ==> !((#[trigger] messages[i]).id@ == id
                && (#[trigger] messages[j]).id@ == id),
    ensures
        message_position(unread_without(messages, id), id) is None,
        unread_without(unread_without(messages, id), id) == unread_without(messages, id),
{
    lemma_message_position_from(messages, id, 0);
    let once = unread_without(messages, id);
    match message_position(messages, id) {
        Some(p) => {
            assert forall|j: int| 0 <= j < once.len() implies (#[trigger] once[j]).id@ != id by {
                if j < p {
                    assert(once[j] == messages[j]);
                } else {
                    assert(once[j] == messages[j + 1]);
                }
            }
        },
        None => {},
    }
    lemma_message_position_none(once, id);
}

impl State {
    /// The state of a session that has fetched nothing yet.
    pub fn new() -> (state: State)
        ensures
            !state.is_loaded,
            state.unread_messages@.len() == 0,
            state.parsed_message_bodies@ == Map::<Seq<char>, String>::empty(),
            state.selected_message_index == 0,
            state.cursor_height == 0,
            !state.should_view_message_body,
            !state.should_exit,
            !state.should_skip_render,
            state.wf(),
    {
        State {
            is_loaded: false,
            unread_messages: Vec::new(),
            parsed_message_bodies: StringHashMap::new(),
            selected_message_index: 0,
            cursor_height: 0,
            should_view_message_body: false,
            should_exit: false,
            should_skip_render: false,
        }
    }

    /// The cursor points at a message of the unread set, or at position 0
    /// where the set is empty.
    pub open spec fn wf(&self) -> bool {
        self.selected_message_index < self.unread_messages@.len() || (
        self.unread_messages@.len() == 0 && self.selected_message_index == 0)
    }

    /// Everything but the unread set, the rendered bodies and the cursor is
    /// the same in both states.
    pub open spec fn same_view_flags(&self, other: &State) -> bool {
        &&& self.is_loaded == other.is_loaded
        &&& self.cursor_height == other.cursor_height
        &&& self.should_view_message_body == other.should_view_message_body
        &&& self.should_exit == other.should_exit
        &&& self.should_skip_render == other.should_skip_render
    }

    /// The state after the message at `position` left the unread set: the
    /// message is gone from the set, its rendered body is forgotten, and
    /// the cursor has moved one step back.
    pub open spec fn removed_at(&self, before: &State, position: int) -> bool {
        &&& self.unread_messages@ == before.unread_messages@.remove(position)
        &&& self.parsed_message_bodies@ == before.parsed_message_bodies@.remove(
            before.unread_messages@[position].id@,
        )
        &&& self.selected_message_index == cursor_back(before.selected_message_index)
        &&& self.same_view_flags(before)
    }

    /// What is left to do for a message that left the unread set: the call
    /// of the first mailbox in `storage` with the message's mailbox id, for
    /// the message's id.
    pub open spec fn confirms(outcome: MarkRead, message: Message, storage: &Storage) -> bool {
        match mailbox_position(storage.outlook@, message.mailbox_id@) {
            Some(m) => outcome matches MarkRead::Confirm { mailbox, call } && {
                &&& mailbox == m
                &&& call.url@ == API_HOST@ + MESSAGE_ENDPOINT@ + message.id@
                &&& call.authorization@ == storage.outlook@[m].auth.access_token@
                &&& call.content_type@ == JSON_CONTENT_TYPE@
                &&& call.is_read
            },
            None => outcome is NoMailbox,
        }
    }

    /// Removes the message at `position` from the unread set and says what
    /// is left to do at the provider.
    fn remove_unread(&mut self, position: usize, storage: &Storage) -> (outcome: MarkRead)
        requires
            position < old(self).unread_messages@.len(),
        ensures
            final(self).removed_at(old(self), position as int),
            State::confirms(outcome, old(self).unread_messages@[position as int], storage),
            old(self).wf() ==> final(self).wf(),
    {
        let message = self.unread_messages.remove(position);
        self.parsed_message_bodies.remove(message.id.as_str());
        self.decrease_selected_message_index();
        match storage.position_of(message.mailbox_id.as_str()) {
            Some(mailbox) => MarkRead::Confirm {
                mailbox,
                call: storage.outlook[mailbox].set_as_read_call(message.id.as_str()),
            },
            None => MarkRead::NoMailbox,
        }
    }

    /// Marks the message with the id `selected_id` as read: the first
    /// message with that id leaves the unread set at once, before anything
    /// is sent, and the outcome holds the call that confirms it at the
    /// owning mailbox. Where no message has that id, and so where the set
    /// is empty, nothing changes.
    pub fn mark_selected_as_read(&mut self, selected_id: &str, storage: &Storage) -> (outcome:
        MarkRead)
        ensures
            final(self).unread_messages@ == unread_without(
                old(self).unread_messages@,
                selected_id@,
            ),
            match message_position(old(self).unread_messages@, selected_id@) {
                Some(p) => {
                    &&& 0 <= p < old(self).unread_messages@.len()
                    &&& old(self).unread_messages@[p].id@ == selected_id@
                    &&& final(self).removed_at(old(self), p)
                    &&& State::confirms(outcome, old(self).unread_messages@[p], storage)
                },
                None => *final(self) == *old(self) && outcome is Nothing,
            },
            old(self).unread_messages@.len() == 0 ==> *final(self) == *old(self) && outcome
                is Nothing,
            old(self).wf() ==> final(self).wf(),
    {
        let wanted = String::from_str(selected_id);
        let mut i: usize = 0;
        proof {
            lemma_message_position_from(self.unread_messages@, selected_id@, 0);
        }
        while i < self.unread_messages.len()
            invariant
                i <= self.unread_messages.len(),
                wanted@ == selected_id@,
                *self == *old(self),
                message_position(self.unread_messages@, selected_id@) == message_position_from(
                    self.unread_messages@,
                    selected_id@,
                    i as int,
                ),
            decreases self.unread_messages.len() - i,
        {
            if self.unread_messages[i].id == wanted {
                return self.remove_unread(i, storage);
            }
            i += 1;
        }
        MarkRead::Nothing
    }

    /// Marks the selected message as read: it leaves the unread set at
    /// once, and the outcome holds the call that confirms it at the owning
    /// mailbox. Where the cursor points at no message, and so where the set
    /// is empty, nothing changes.
    pub fn set_selected_message_as_read(&mut self, storage: &Storage) -> (outcome: MarkRead)
        ensures
            old(self).selected_message_index < old(self).unread_messages@.len() ==> {
                &&& final(self).removed_at(old(self), old(self).selected_message_index as int)
                &&& State::confirms(
                    outcome,
                    old(self).unread_messages@[old(self).selected_message_index as int],
                    storage,
                )
            },
            old(self).selected_message_index >= old(self).unread_messages@.len() ==> *final(self)
                == *old(self) && outcome is Nothing,
            old(self).wf() ==> final(self).wf(),
    {
        if self.selected_message_index >= self.unread_messages.len() {
            return MarkRead::Nothing;
        }
        let position: usize = self.selected_message_index;
        self.remove_unread(position, storage)
    }

    /// Moves the cursor one message towards the start of the unread set,
    /// unless it is at the start.
    pub fn decrease_selected_message_index(&mut self)
        ensures
            final(self).selected_message_index == cursor_back(old(self).selected_message_index),
            final(self).unread_messages == old(self).unread_messages,
            final(self).parsed_message_bodies == old(self).parsed_message_bodies,
            final(self).same_view_flags(old(self)),
            old(self).wf() ==> final(self).wf(),
    {
        if self.selected_message_index > 0 {
            self.selected_message_index -= 1;
        }
    }

    /// Moves the cursor one message towards the end of the unread set,
    /// unless it is at the last message or beyond.
    pub fn increase_selected_message_index(&mut self)
        ensures
            final(self).selected_message_index == cursor_forth(
                old(self).selected_message_index,
                old(self).unread_messages@.len(),
            ),
            final(self).unread_messages == old(self).unread_messages,
            final(self).parsed_message_bodies == old(self).parsed_message_bodies,
            final(self).same_view_flags(old(self)),
            old(self).wf() ==> final(self).wf(),
    {
        let count: usize = self.unread_messages.len();
        let min_index: usize = if count == 0 {
            0
        } else {
            count - 1
        };
        if self.selected_message_index < min_index {
            self.selected_message_index += 1;
        }
    }
}

} // verus!
