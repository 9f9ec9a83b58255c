//! The canonical message model shared by every mail provider.

use crate::transport::{Reply, STATUS_OK};
use vstd::prelude::*;

verus! {

/// An email participant.
#[derive(Debug, PartialEq, Eq)]
pub struct Recipient {
    pub address: String,
    pub name: String,
}

/// The mathematical value of a [`Recipient`].
pub struct RecipientView {
    pub address: Seq<char>,
    pub name: Seq<char>,
}

impl View for Recipient {
    type V = RecipientView;

    open spec fn view(&self) -> RecipientView {
        RecipientView { address: self.address@, name: self.name@ }
    }
}

impl Clone for Recipient {
    fn clone(&self) -> (copy: Recipient)
        ensures
            copy@ == self@,
    {
        Recipient { address: self.address.clone(), name: self.name.clone() }
    }
}

/// The values of a sequence of recipients, in order.
pub open spec fn recipient_views(recipients: Seq<Recipient>) -> Seq<RecipientView> {
    recipients.map_values(|r: Recipient| r@)
}

/// A copy of `recipients`, in the same order.
pub fn clone_recipients(recipients: &Vec<Recipient>) -> (copy: Vec<Recipient>)
    ensures
        recipient_views(copy@) == recipient_views(recipients@),
{
    let mut copy: Vec<Recipient> = Vec::new();
    let mut i: usize = 0;
    while i < recipients.len()
        invariant
            i <= recipients.len(),
            copy@.len() == i,
            forall|j: int| 0 <= j < i ==> copy@[j]@ == recipients@[j]@,
        decreases recipients.len() - i,
    {
        copy.push(recipients[i].clone());
        i += 1;
    }
    copy
}

/// An unread message in canonical form.
#[derive(Debug, PartialEq, Eq)]
pub struct Message {
    /// The provider's id of the message.
    pub id: String,
    /// The id of the mailbox that the message was fetched from.
    pub mailbox_id: String,
    pub subject: String,
    pub body: String,
    pub from: Recipient,
    pub to: Vec<Recipient>,
    /// When the message was sent, in seconds since the Unix epoch.
    pub date: u64,
}

/// The mathematical value of a [`Message`].
pub struct MessageView {
    pub id: Seq<char>,
    pub mailbox_id: Seq<char>,
    pub subject: Seq<char>,
    pub body: Seq<char>,
    pub from: RecipientView,
    pub to: Seq<RecipientView>,
    pub date: u64,
}

impl View for Message {
    type V = MessageView;

    open spec fn view(&self) -> MessageView {
        MessageView {
            id: self.id@,
            mailbox_id: self.mailbox_id@,
            subject: self.subject@,
            body: self.body@,
            from: self.from@,
            to: recipient_views(self.to@),
            date: self.date,
        }
    }
}

impl Clone for Message {
    fn clone(&self) -> (copy: Message)
        ensures
            copy@ == self@,
    {
        Message {
            id: self.id.clone(),
            mailbox_id: self.mailbox_id.clone(),
            subject: self.subject.clone(),
            body: self.body.clone(),
            from: self.from.clone(),
            to: clone_recipients(&self.to),
            date: self.date,
        }
    }
}

/// The values of a sequence of messages, in order.
pub open spec fn message_views(messages: Seq<Message>) -> Seq<MessageView> {
    messages.map_values(|m: Message| m@)
}

/// Why a message could not be marked as read at the provider.
#[derive(Debug, PartialEq, Eq, Structural, Clone, Copy)]
pub enum SetReadError {
    /// The provider could not be reached or did not answer.
    NoResponse,
    /// The provider answered with a status other than 200.
    NonOkCode(u16),
}

/// Why the unread messages could not be fetched from the provider.
#[derive(Debug, PartialEq, Eq, Structural, Clone, Copy)]
pub enum FetchError {
    /// The provider could not be reached or did not answer.
    NoResponse,
    /// The provider answered with a status other than 200.
    NonOkCode(u16),
    /// The provider answered 200 with a listing that could not be decoded.
    MalformedBody,
}

/// What a status of the mark-read call amounts to: 200 is success, no
/// status and any other status are failures.
pub open spec fn mark_read_outcome(status: Option<u16>) -> Result<(), SetReadError> {
    match status {
        None => Err(SetReadError::NoResponse),
        Some(code) => if code == STATUS_OK {
            Ok(())
        } else {
            Err(SetReadError::NonOkCode(code))
        },
    }
}

/// What every mail provider offers: it names itself, turns the reply to
/// its unread listing into canonical messages, and judges the reply to a
/// mark-read call. The calls themselves are made by the caller; a provider
/// decides what to make of what came back.
pub trait Mailbox {
    /// The provider's own decoded listing of unread messages.
    type Listing;

    /// The mailbox's identifier.
    spec fn mailbox_id(&self) -> Seq<char>;

    /// What a reply to the unread listing amounts to.
    spec fn unread(&self, reply: Reply<Self::Listing>) -> Result<Seq<MessageView>, FetchError>;

    /// The mailbox's identifier.
    fn get_id(&self) -> (id: &str)
        ensures
            id@ == self.mailbox_id(),
    ;

    /// The canonical messages of the listing in `reply`. Every message is
    /// stamped with this mailbox's id. A reply without status 200 fails the
    /// fetch with that reply's error, and no reply with a decoded listing
    /// and status 200 fails it.
    fn fetch_unread(&self, reply: Reply<Self::Listing>) -> (outcome: Result<
        Vec<Message>,
        FetchError,
    >)
        ensures
            match outcome {
                Ok(messages) => self.unread(reply) == Ok::<Seq<MessageView>, FetchError>(
                    message_views(messages@),
                ),
                Err(error) => self.unread(reply) == Err::<Seq<MessageView>, FetchError>(error),
            },
            outcome matches Ok(messages) ==> reply.spec_status() == Some(STATUS_OK) && forall|
                i: int,
            |
                0 <= i < messages@.len() ==> (#[trigger] messages@[i]).mailbox_id@
                    == self.mailbox_id(),
            reply.spec_accept() is Ok ==> outcome is Ok,
            reply.spec_status() is None ==> outcome == Err::<Vec<Message>, FetchError>(
                FetchError::NoResponse,
            ),
            reply.spec_status() matches Some(status) ==> (status != STATUS_OK ==> outcome == Err::<
                Vec<Message>,
                FetchError,
            >(FetchError::NonOkCode(status))),
    ;

    /// Judges the status that came back from a mark-read call.
    fn set_as_read(&self, status: Option<u16>) -> (outcome: Result<(), SetReadError>)
        ensures
            outcome == mark_read_outcome(status),
    ;
}

} // verus!
