//! The Outlook adapter: one authenticated connection to a Microsoft account,
//! the calls it makes to the Graph API and what their replies amount to.

pub mod auth;
pub mod timestamp;

use crate::mail::{
    message_views, FetchError, Mailbox, Message, MessageView, Recipient, RecipientView,
    SetReadError,
};
use crate::outlook::auth::{
    access_token_call, access_token_form, access_token_of, expired, get_access_token, is_expired,
    AccessTokenCall, AccessTokenRequestType, AccessTokenRequestTypeView, AccessTokenResponse,
    ExchangeError, API_HOST as LOGIN_HOST, FORM_CONTENT_TYPE, TOKEN_ENDPOINT,
};
use crate::outlook::timestamp::{epoch_seconds, parse_timestamp};
use crate::transport::{Reply, ReplyError, STATUS_OK};
use vstd::prelude::*;
use vstd::string::StringExecFns;

verus! {

/// The host of the Graph API.
pub const API_HOST: &'static str = "https://graph.microsoft.com";

/// The listing of the inbox's unread messages, at most 1000 of them. This
/// cap is the upper bound of one fetch; no further page is asked for.
pub const UNREAD_ENDPOINT: &'static str =
    "/v1.0/me/mailFolders/Inbox/messages?$filter=isRead ne true&$top=1000";

/// The path under which one message is addressed by its id.
pub const MESSAGE_ENDPOINT: &'static str = "/v1.0/me/messages/";

/// The content type of the update that marks a message as read.
pub const JSON_CONTENT_TYPE: &'static str = "application/json";

/// One authenticated connection to a provider account.
#[derive(Debug, PartialEq, Eq)]
pub struct OutlookMailbox {
    /// When the access token was issued, in seconds since the Unix epoch.
    pub timestamp: u64,
    pub client_id: String,
    pub auth: AccessTokenResponse,
}

impl Clone for OutlookMailbox {
    fn clone(&self) -> (copy: OutlookMailbox)
        ensures
            copy.timestamp == self.timestamp,
            copy.client_id@ == self.client_id@,
            copy.auth@ == self.auth@,
    {
        OutlookMailbox {
            timestamp: self.timestamp,
            client_id: self.client_id.clone(),
            auth: self.auth.clone(),
        }
    }
}

/// The body of a message as the provider sends it.
#[derive(Debug, PartialEq, Eq)]
pub struct OutlookMessageBody {
    pub content_type: String,
    pub content: String,
}

/// A participant as the provider sends it.
#[derive(Debug, PartialEq, Eq)]
pub struct OutlookRecipient {
    pub email_address: Recipient,
}

/// A message as the provider sends it.
#[derive(Debug, PartialEq, Eq)]
pub struct OutlookMessage {
    pub id: String,
    /// When the message was sent, as a timestamp in UTC.
    pub sent_date_time: String,
    pub has_attachments: bool,
    pub subject: String,
    pub body: OutlookMessageBody,
    pub body_preview: String,
    pub from: OutlookRecipient,
    pub to_recipients: Vec<OutlookRecipient>,
}

/// The call that lists the unread messages.
#[derive(Debug, PartialEq, Eq)]
pub struct FetchUnreadCall {
    /// The address that is fetched with GET.
    pub url: String,
    /// The value of the `Authorization` header.
    pub authorization: String,
}

/// The call that marks one message as read.
#[derive(Debug, PartialEq, Eq)]
pub struct SetAsReadCall {
    /// The address that is updated with PATCH.
    pub url: String,
    /// The value of the `Authorization` header.
    pub authorization: String,
    /// The value of the `Content-Type` header.
    pub content_type: String,
    /// The read flag that the body sets.
    pub is_read: bool,
}

/// The addresses of the provider's participants, in order.
pub open spec fn address_views(recipients: Seq<OutlookRecipient>) -> Seq<RecipientView> {
    recipients.map_values(|r: OutlookRecipient| r.email_address@)
}

/// The date of a message whose sending time is not written as a
/// timestamp that [`epoch_seconds`] reads.
pub const UNKNOWN_DATE: u64 = 0;

/// The sending time `sent` in whole seconds since the Unix epoch, or
/// [`UNKNOWN_DATE`] where `sent` is not a timestamp in UTC from 1970 on,
/// as [`epoch_seconds`] reads it.
pub open spec fn sent_date(sent: Seq<char>) -> u64 {
    match epoch_seconds(sent) {
        Some(seconds) => seconds as u64,
        None => UNKNOWN_DATE,
    }
}

/// The canonical form of a provider message that was fetched from the
/// mailbox `mailbox_id`: id, subject, sender and addressees are kept, the
/// body is the body's content, the date is the sending time in seconds, and
/// the message is stamped with the mailbox id. Every provider message has
/// a canonical form.
pub open spec fn canonical_message(mailbox_id: Seq<char>, native: OutlookMessage) -> MessageView {
    MessageView {
        id: native.id@,
        mailbox_id,
        subject: native.subject@,
        body: native.body.content@,
        from: native.from.email_address@,
        to: address_views(native.to_recipients@),
        date: sent_date(native.sent_date_time@),
    }
}

/// The canonical forms of a listing, one for each of its messages, in the
/// listing's order.
pub open spec fn canonical_messages(mailbox_id: Seq<char>, listing: Seq<OutlookMessage>) -> Seq<
    MessageView,
> {
    listing.map_values(|native: OutlookMessage| canonical_message(mailbox_id, native))
}

/// The fetch error that stands for a reply error.
pub open spec fn fetch_error(error: ReplyError) -> FetchError {
    match error {
        ReplyError::NoResponse => FetchError::NoResponse,
        ReplyError::NonOkCode(status) => FetchError::NonOkCode(status),
        ReplyError::MalformedBody => FetchError::MalformedBody,
    }
}

/// What a reply to the unread listing amounts to for the mailbox
/// `mailbox_id`: the canonical messages of a decoded listing that came with
/// status 200, and a failure for every other reply: no response, another
/// status, or a body that could not be decoded.
pub open spec fn unread_of(mailbox_id: Seq<char>, reply: Reply<Vec<OutlookMessage>>) -> Result<
    Seq<MessageView>,
    FetchError,
> {
    match reply.spec_accept() {
        Ok(listing) => Ok(canonical_messages(mailbox_id, listing@)),
        Err(error) => Err(fetch_error(error)),
    }
}

/// The addresses of the provider's participants, in order.
fn addresses(recipients: &Vec<OutlookRecipient>) -> (to: Vec<Recipient>)
    ensures
        crate::mail::recipient_views(to@) == address_views(recipients@),
{
    let mut to: Vec<Recipient> = Vec::new();
    let mut i: usize = 0;
    while i < recipients.len()
        invariant
            i <= recipients.len(),
            to@.len() == i,
            forall|j: int| 0 <= j < i ==> to@[j]@ == recipients@[j].email_address@,
        decreases recipients.len() - i,
    {
        to.push(recipients[i].email_address.clone());
        i += 1;
    }
    to
}

/// The canonical form of one provider message.
pub fn to_message(mailbox_id: &str, native: &OutlookMessage) -> (message: Message)
    ensures
        message@ == canonical_message(mailbox_id@, *native),
{
    let date: u64 = match parse_timestamp(native.sent_date_time.as_str()) {
        Some(seconds) => seconds,
        None => UNKNOWN_DATE,
    };
    Message {
        id: native.id.clone(),
        mailbox_id: String::from_str(mailbox_id),
        subject: native.subject.clone(),
        body: native.body.content.clone(),
        from: native.from.email_address.clone(),
        to: addresses(&native.to_recipients),
        date,
    }
}

impl OutlookMailbox {
    /// A mailbox for `client_id` whose token `auth` was issued at `now`.
    pub fn open(client_id: &str, auth: AccessTokenResponse, now: u64) -> (mailbox: Self)
        ensures
            mailbox.timestamp == now,
            mailbox.client_id@ == client_id@,
            mailbox.auth == auth,
    {
        Self { timestamp: now, client_id: String::from_str(client_id), auth }
    }

    /// The mailbox's identifier.
    pub open spec fn id(&self) -> Seq<char> {
        self.client_id@
    }

    /// Whether the mailbox's token is expired at `now`.
    pub open spec fn expired_at(&self, now: u64) -> bool {
        expired(self.auth.expires_in, self.timestamp, now)
    }

    /// The call that refreshes the mailbox's token, where the token is
    /// expired at `now`; `None` where it is not. The call sends the stored
    /// refresh token and no code.
    pub fn refresh_call(&self, now: u64) -> (call: Option<AccessTokenCall>)
        ensures
            call is Some <==> self.expired_at(now),
            call matches Some(c) ==> {
                &&& c.url@ == LOGIN_HOST@ + TOKEN_ENDPOINT@
                &&& c.content_type@ == FORM_CONTENT_TYPE@
                &&& c.form@ == access_token_form(
                    self.client_id@,
                    AccessTokenRequestTypeView::RefreshToken(self.auth.refresh_token@),
                )
                &&& c.form@.refresh_token == Some(self.auth.refresh_token@)
                &&& c.form@.code is None
            },
    {
        if is_expired(&self.auth, self.timestamp, now) {
            let request_type = AccessTokenRequestType::RefreshToken(
                self.auth.refresh_token.clone(),
            );
            Some(access_token_call(self.client_id.as_str(), &request_type))
        } else {
            None
        }
    }

    /// Replaces the mailbox's token by the one in `reply`, where the token
    /// is expired at `now`, and says whether it did. A token that is not
    /// expired stays, whatever the reply holds. Where the token is expired
    /// and the reply carries no token, the mailbox stays as it is and the
    /// error is returned. A token that replaces another is issued at `now`,
    /// which is later than the issue of the one it replaces.
    pub fn try_refresh_access_token(&mut self, now: u64, reply: Reply<AccessTokenResponse>) -> (
        refreshed: Result<bool, ExchangeError>)
        ensures
            !old(self).expired_at(now) ==> refreshed == Ok::<bool, ExchangeError>(false)
                && *final(self) == *old(self),
            old(self).expired_at(now) ==> match access_token_of(reply) {
                Ok(token) => {
                    &&& refreshed == Ok::<bool, ExchangeError>(true)
                    &&& final(self).auth == token
                    &&& final(self).timestamp == now
                    &&& final(self).timestamp > old(self).timestamp
                    &&& final(self).client_id == old(self).client_id
                },
                Err(error) => refreshed == Err::<bool, ExchangeError>(error) && *final(self)
                    == *old(self),
            },
    {
        if !is_expired(&self.auth, self.timestamp, now) {
            return Ok(false);
        }
        match get_access_token(reply) {
            Ok(token) => {
                self.auth = token;
                self.timestamp = now;
                Ok(true)
            },
            Err(error) => Err(error),
        }
    }

    /// The call that lists the mailbox's unread messages.
    pub fn fetch_unread_call(&self) -> (call: FetchUnreadCall)
        ensures
            call.url@ == API_HOST@ + UNREAD_ENDPOINT@,
            call.authorization@ == self.auth.access_token@,
    {
        let mut url = String::from_str(API_HOST);
        url.append(UNREAD_ENDPOINT);
        FetchUnreadCall { url, authorization: self.auth.access_token.clone() }
    }

    /// The call that marks the message `message_id` as read.
    pub fn set_as_read_call(&self, message_id: &str) -> (call: SetAsReadCall)
        ensures
            call.url@ == API_HOST@ + MESSAGE_ENDPOINT@ + message_id@,
            call.authorization@ == self.auth.access_token@,
            call.content_type@ == JSON_CONTENT_TYPE@,
            call.is_read,
    {
        let mut url = String::from_str(API_HOST);
        url.append(MESSAGE_ENDPOINT);
        url.append(message_id);
        SetAsReadCall {
            url,
            authorization: self.auth.access_token.clone(),
            content_type: String::from_str(JSON_CONTENT_TYPE),
            is_read: true,
        }
    }
}

impl Mailbox for OutlookMailbox {
    type Listing = Vec<OutlookMessage>;

    open spec fn mailbox_id(&self) -> Seq<char> {
        self.client_id@
    }

    open spec fn unread(&self, reply: Reply<Vec<OutlookMessage>>) -> Result<
        Seq<MessageView>,
        FetchError,
    > {
        unread_of(self.client_id@, reply)
    }

    fn get_id(&self) -> (id: &str) {
        self.client_id.as_str()
    }

    /// The canonical messages of the listing in `reply`, one for every
    /// message of the listing and in its order, each stamped with this
    /// mailbox's id. Any reply but a decoded listing with status 200 fails
    /// the fetch; a failed fetch yields no message.
    fn fetch_unread(&self, reply: Reply<Vec<OutlookMessage>>) -> (outcome: Result<
        Vec<Message>,
        FetchError,
    >) {
        let listing = match reply.accept() {
            Ok(listing) => listing,
            Err(ReplyError::NoResponse) => { return Err(FetchError::NoResponse); },
            Err(ReplyError::NonOkCode(status)) => { return Err(FetchError::NonOkCode(status)); },
            Err(ReplyError::MalformedBody) => { return Err(FetchError::MalformedBody); },
        };
        let mut messages: Vec<Message> = Vec::new();
        let mut i: usize = 0;
        while i < listing.len()
            invariant
                i <= listing.len(),
                messages@.len() == i,
                forall|j: int|
                    0 <= j < i ==> (#[trigger] messages@[j])@ == canonical_message(
                        self.client_id@,
                        listing@[j],
                    ),
            decreases listing.len() - i,
        {
            messages.push(to_message(self.client_id.as_str(), &listing[i]));
            i += 1;
        }
        proof {
            assert(message_views(messages@) =~= canonical_messages(self.client_id@, listing@));
        }
        Ok(messages)
    }

    fn set_as_read(&self, status: Option<u16>) -> (outcome: Result<(), SetReadError>) {
        match status {
            None => Err(SetReadError::NoResponse),
            Some(code) => if code == STATUS_OK {
                Ok(())
            } else {
                Err(SetReadError::NonOkCode(code))
            },
        }
    }
}

} // verus!
