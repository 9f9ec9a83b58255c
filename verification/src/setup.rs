//! Starting a session: adding a mailbox, refreshing the stored tokens that
//! have expired, and filling the unread set from every mailbox.

use crate::mail::{message_views, FetchError, Mailbox, Message, MessageView};
use crate::outlook::auth::{access_token_of, AccessTokenResponse, ExchangeError};
use crate::outlook::{unread_of, OutlookMailbox, OutlookMessage};
use crate::state::State;
use crate::storage::{lemma_mailbox_position_from, mailbox_position, Storage};
use crate::text::{chars_of, slice_of, string_of};
use crate::transport::Reply;
use vstd::prelude::*;

verus! {

/// The reply that belongs to the mailbox at position `i`: the one at that
/// position, or no response where fewer replies were handed in.
pub open spec fn reply_at<T>(replies: Seq<Reply<T>>, i: int) -> Reply<T> {
    if 0 <= i < replies.len() {
        replies[i]
    } else {
        Reply::Unreachable
    }
}

/// A mailbox after its turn in a round of refreshes at `now`: a token that
/// is expired is replaced by the token in `reply` and issued at `now`;
/// anything else leaves the mailbox as it was.
pub open spec fn refreshed_from(
    after: OutlookMailbox,
    before: OutlookMailbox,
    now: u64,
    reply: Reply<AccessTokenResponse>,
) -> bool {
    if before.expired_at(now) {
        match access_token_of(reply) {
            Ok(token) => after.auth == token && after.timestamp == now && after.client_id
                == before.client_id,
            Err(_) => after == before,
        }
    } else {
        after == before
    }
}

/// The mailbox's token is expired at `now` and `reply` carries no token.
pub open spec fn refresh_fails(
    before: OutlookMailbox,
    now: u64,
    reply: Reply<AccessTokenResponse>,
) -> bool {
    before.expired_at(now) && access_token_of(reply) is Err
}

/// What is left of `replies` after the first `i` of them were taken.
pub open spec fn replies_after<T>(replies: Seq<Reply<T>>, i: int) -> Seq<Reply<T>> {
    if 0 <= i <= replies.len() {
        replies.skip(i)
    } else {
        Seq::empty()
    }
}

/// Takes the first reply out of `rest`, or gives no response where `rest`
/// is empty.
fn next_reply<T>(rest: &mut Vec<Reply<T>>) -> (reply: Reply<T>)
    ensures
        reply == reply_at(old(rest)@, 0),
        final(rest)@ == replies_after(old(rest)@, 1),
{
    if rest.len() > 0 {
        let reply = rest.remove(0);
        reply
    } else {
        Reply::Unreachable
    }
}

/// How a round of refreshes ended.
#[derive(Debug, PartialEq, Eq, Structural, Clone, Copy)]
pub struct RefreshRound {
    /// Whether a token was replaced, so that the store is to be saved. It
    /// is saved once, however many tokens were replaced.
    pub should_save: bool,
    /// The error that stopped the round, if one did.
    pub failure: Option<ExchangeError>,
}

/// A round of refreshes at `now` that took the store from `before` to
/// `after` and went on up to, not including, position `stop`: every
/// mailbox before `stop` had its turn and none of them failed, the
/// mailboxes from `stop` on are as they were, and the store is to be saved
/// exactly where a mailbox before `stop` had an expired token, which was
/// then replaced. The round went on to the end without a failure, or
/// stopped at the first expired token whose reply carries no token, with
/// that reply's error.
pub open spec fn round_ended_at(
    before: Seq<OutlookMailbox>,
    after: Seq<OutlookMailbox>,
    now: u64,
    replies: Seq<Reply<AccessTokenResponse>>,
    stop: int,
    round: RefreshRound,
) -> bool {
    &&& 0 <= stop <= before.len() == after.len()
    &&& forall|i: int|
        0 <= i < stop ==> !refresh_fails(#[trigger] before[i], now, reply_at(replies, i))
    &&& forall|i: int|
        0 <= i < stop ==> refreshed_from(#[trigger] after[i], before[i], now, reply_at(replies, i))
    &&& forall|i: int| stop <= i < before.len() ==> #[trigger] after[i] == before[i]
    &&& round.should_save == exists|i: int|
        0 <= i < stop && (#[trigger] before[i]).expired_at(now)
    &&& match round.failure {
        None => stop == before.len(),
        Some(error) => stop < before.len() && before[stop].expired_at(now) && access_token_of(
            reply_at(replies, stop),
        ) == Err::<AccessTokenResponse, ExchangeError>(error),
    }
}

/// Refreshes every mailbox whose token is expired at `now`, in the order
/// of the store, with the reply at the mailbox's position, and says
/// whether the store is to be saved: it is where a token was replaced.
/// The round stops at the first expired token whose reply carries no
/// token, and reports that reply's error beside the request to save what
/// the mailboxes before it were given; that mailbox and those after it
/// stay as they were.
pub fn refresh_outlook_access_tokens(
    storage: &mut Storage,
    now: u64,
    replies: Vec<Reply<AccessTokenResponse>>,
) -> (round: RefreshRound)
    ensures
        exists|stop: int|
            round_ended_at(
                old(storage).outlook@,
                final(storage).outlook@,
                now,
                replies@,
                stop,
                round,
            ),
        forall|i: int|
            0 <= i < old(storage).outlook@.len() ==> (#[trigger] final(storage).outlook@[i]).client_id
                == old(storage).outlook@[i].client_id,
        old(storage).wf() ==> final(storage).wf(),
{
    let mut rest = replies;
    let mut should_save_storage: bool = false;
    let mut i: usize = 0;
    let ghost start = storage.outlook@;
    while i < storage.outlook.len()
        invariant
            i <= storage.outlook@.len(),
            storage.outlook@.len() == start.len(),
            start == old(storage).outlook@,
            rest@ == replies_after(replies@, i as int),
            forall|j: int|
                0 <= j < i ==> !refresh_fails(#[trigger] start[j], now, reply_at(replies@, j)),
            forall|j: int|
                0 <= j < i ==> refreshed_from(
                    #[trigger] storage.outlook@[j],
                    start[j],
                    now,
                    reply_at(replies@, j),
                ),
            forall|j: int| i <= j < start.len() ==> #[trigger] storage.outlook@[j] == start[j],
            should_save_storage == exists|j: int|
                0 <= j < i && (#[trigger] start[j]).expired_at(now),
        decreases storage.outlook@.len() - i,
    {
        let ghost before = storage.outlook@;
        let reply = next_reply(&mut rest);
        match storage.outlook[i].try_refresh_access_token(now, reply) {
            Ok(refreshed) => {
                proof {
                    assert(forall|j: int|
                        0 <= j < storage.outlook@.len() && j != i ==> storage.outlook@[j]
                            == before[j]);
                }
                if refreshed && !should_save_storage {
                    should_save_storage = true;
                }
            },
            Err(error) => {
                let round = RefreshRound { should_save: should_save_storage, failure: Some(error) };
                proof {
                    assert(forall|j: int|
                        0 <= j < storage.outlook@.len() && j != i ==> storage.outlook@[j]
                            == before[j]);
                    assert(round_ended_at(start, storage.outlook@, now, replies@, i as int, round));
                }
                return round;
            },
        }
        i += 1;
    }
    let round = RefreshRound { should_save: should_save_storage, failure: None };
    proof {
        assert(round_ended_at(start, storage.outlook@, now, replies@, i as int, round));
    }
    round
}

/// The unread messages of the first `upto` mailboxes, in the order of the
/// store and, within a mailbox, in the order of its listing. The first
/// mailbox whose reply fails decides the error.
pub open spec fn unread_upto(
    mailboxes: Seq<OutlookMailbox>,
    replies: Seq<Reply<Vec<OutlookMessage>>>,
    upto: int,
) -> Result<Seq<MessageView>, FetchError>
    decreases upto,
{
    if upto <= 0 {
        Ok(Seq::empty())
    } else {
        match unread_upto(mailboxes, replies, upto - 1) {
            Ok(before) => match unread_of(
                mailboxes[upto - 1].client_id@,
                reply_at(replies, upto - 1),
            ) {
                Ok(messages) => Ok(before + messages),
                Err(error) => Err(error),
            },
            Err(error) => Err(error),
        }
    }
}

/// Once the fetch of a mailbox has failed, the mailboxes after it change
/// nothing about the error.
pub proof fn lemma_unread_failure_stays(
    mailboxes: Seq<OutlookMailbox>,
    replies: Seq<Reply<Vec<OutlookMessage>>>,
    failed: int,
    upto: int,
)
    requires
        0 <= failed <= upto,
        unread_upto(mailboxes, replies, failed) is Err,
    ensures
        unread_upto(mailboxes, replies, upto) == unread_upto(mailboxes, replies, failed),
    decreases upto - failed,
{
    if failed < upto {
        lemma_unread_failure_stays(mailboxes, replies, failed, upto - 1);
    }
}

/// The unread messages of all mailboxes.
pub open spec fn all_unread(
    mailboxes: Seq<OutlookMailbox>,
    replies: Seq<Reply<Vec<OutlookMessage>>>,
) -> Result<Seq<MessageView>, FetchError> {
    unread_upto(mailboxes, replies, mailboxes.len() as int)
}

/// The position of the last of `count` messages, or 0 where there is none.
pub open spec fn last_position(count: nat) -> usize {
    if count == 0 {
        0
    } else {
        (count - 1) as usize
    }
}

/// Fills the unread set with the messages of every mailbox, from the reply
/// at the mailbox's position, marks the session as loaded and puts the
/// cursor on the last message. Where the fetch of one mailbox fails, the
/// whole step fails with that error and the session stays as it was: no
/// message is added.
pub fn setup(state: &mut State, storage: &Storage, replies: Vec<Reply<Vec<OutlookMessage>>>) -> (
    outcome: Result<(), FetchError>)
    ensures
        match outcome {
            Ok(_) => {
                &&& all_unread(storage.outlook@, replies@) == Ok::<Seq<MessageView>, FetchError>(
                    message_views(final(state).unread_messages@),
                )
                &&& final(state).is_loaded
                &&& final(state).selected_message_index == last_position(
                    final(state).unread_messages@.len(),
                )
                &&& final(state).parsed_message_bodies == old(state).parsed_message_bodies
                &&& final(state).cursor_height == old(state).cursor_height
                &&& final(state).should_view_message_body == old(state).should_view_message_body
                &&& final(state).should_exit == old(state).should_exit
                &&& final(state).should_skip_render == old(state).should_skip_render
                &&& final(state).wf()
            },
            Err(error) => all_unread(storage.outlook@, replies@) == Err::<
                Seq<MessageView>,
                FetchError,
            >(error) && *final(state) == *old(state),
        },
{
    let mut rest = replies;
    let mut unread: Vec<Message> = Vec::new();
    let mut i: usize = 0;
    proof {
        assert(message_views(unread@) =~= Seq::<MessageView>::empty());
    }
    while i < storage.outlook.len()
        invariant
            i <= storage.outlook@.len(),
            *state == *old(state),
            rest@ == replies_after(replies@, i as int),
            unread_upto(storage.outlook@, replies@, i as int) == Ok::<
                Seq<MessageView>,
                FetchError,
            >(message_views(unread@)),
        decreases storage.outlook@.len() - i,
    {
        let reply = next_reply(&mut rest);
        let ghost before = unread@;
        match storage.outlook[i].fetch_unread(reply) {
            Ok(mut messages) => {
                let ghost added = messages@;
                unread.append(&mut messages);
                proof {
                    assert(message_views(unread@) =~= message_views(before) + message_views(added));
                }
            },
            Err(error) => {
                proof {
                    lemma_unread_failure_stays(
                        storage.outlook@,
                        replies@,
                        i + 1,
                        storage.outlook@.len() as int,
                    );
                }
                return Err(error);
            },
        }
        i += 1;
    }
    state.unread_messages = unread;
    state.is_loaded = true;
    let unread_count: usize = state.unread_messages.len();
    state.selected_message_index = if unread_count == 0 {
        0
    } else {
        unread_count - 1
    };
    Ok(())
}

/// A line without the line feed that ends it, and without the carriage
/// return before that line feed; a line that no line feed ends is kept
/// whole.
pub open spec fn line_content(line: Seq<char>) -> Seq<char> {
    if line.len() >= 2 && line[line.len() - 2] == '\r' && line[line.len() - 1] == '\n' {
        line.take(line.len() - 2)
    } else if line.len() >= 1 && line[line.len() - 1] == '\n' {
        line.take(line.len() - 1)
    } else {
        line
    }
}

/// The client id in a line that was read from the terminal: the line
/// without its end.
pub fn client_id_from_line(line: &str) -> (client_id: String)
    ensures
        client_id@ == line_content(line@),
{
    let chars = chars_of(line);
    let length: usize = chars.len();
    let kept: usize = if length >= 2 && chars[length - 2] == '\r' && chars[length - 1] == '\n' {
        length - 2
    } else if length >= 1 && chars[length - 1] == '\n' {
        length - 1
    } else {
        length
    };
    let content = slice_of(&chars, 0, kept);
    proof {
        assert(line@.take(line@.len() as int) =~= line@);
    }
    string_of(&content)
}

/// Adds the mailbox for `client_id`, whose token `auth` was issued at
/// `now`, to the store. A store that holds a mailbox with that identifier
/// keeps one record for it: the first such record gets the new token and
/// its time of issue. Otherwise the new mailbox is the store's last.
pub fn add_outlook_mailbox(
    storage: &mut Storage,
    client_id: &str,
    auth: AccessTokenResponse,
    now: u64,
)
    ensures
        ({
            let before = old(storage).outlook@;
            let after = final(storage).outlook@;
            match mailbox_position(before, client_id@) {
                Some(p) => {
                    &&& after.len() == before.len()
                    &&& after[p].auth == auth
                    &&& after[p].timestamp == now
                    &&& after[p].client_id == before[p].client_id
                    &&& forall|i: int|
                        0 <= i < before.len() && i != p ==> #[trigger] after[i] == before[i]
                },
                None => {
                    &&& after.len() == before.len() + 1
                    &&& after.last().auth == auth
                    &&& after.last().timestamp == now
                    &&& after.last().client_id@ == client_id@
                    &&& after.drop_last() == before
                },
            }
        }),
        old(storage).wf() ==> final(storage).wf(),
{
    proof {
        lemma_mailbox_position_from(storage.outlook@, client_id@, 0);
    }
    match storage.position_of(client_id) {
        Some(p) => {
            storage.outlook[p].auth = auth;
            storage.outlook[p].timestamp = now;
        },
        None => {
            storage.outlook.push(OutlookMailbox::open(client_id, auth, now));
        },
    }
}

} // verus!
