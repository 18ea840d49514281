//! The values the platform sends and receives: users, chats, messages, updates,
//! subscriptions and request outcomes.
use std::collections::BTreeMap;
use vstd::prelude::*;
use crate::error::Error;
use crate::ids::{ChatId, Count, Marker, MessageSeq, Mid, TimeMs, UserId};
use crate::kinds::{ChatStatus, ChatType, MessageLinkType, TextFormat, UpdateType};
use crate::secret::Secret;
use crate::update_types::UpdateTypes;

verus! {

/// A user of the platform.
#[derive(Debug)]
pub struct User {
    pub user_id: UserId,
    pub first_name: String,
    pub last_name: Option<String>,
    pub username: Option<String>,
    pub is_bot: bool,
    pub last_activity_time: TimeMs,
}

/// A user with the profile description and avatar links.
pub struct UserWithPhoto {
    pub user: User,
    pub description: Option<String>,
    /// Avatar URL, as text.
    pub avatar_url: Option<String>,
    /// Full-size avatar URL, as text.
    pub full_avatar_url: Option<String>,
}

/// An image given by its URL (as text).
pub struct Image {
    pub url: String,
}

/// A chat the bot takes part in.
pub struct Chat {
    pub chat_id: ChatId,
    /// The chat's kind (`type` on the wire).
    pub chat_type: ChatType,
    pub status: ChatStatus,
    pub title: Option<String>,
    pub icon: Option<Image>,
    pub last_event_time: TimeMs,
    pub participants_count: Count,
    pub owner_id: Option<BTreeMap<UserId, TimeMs>>,
    pub is_public: bool,
    /// Public link of the chat, as text.
    pub link: Option<String>,
    pub description: Option<String>,
    pub dialog_with_user: Option<UserWithPhoto>,
    pub chat_message_id: Option<ChatId>,
    pub pinned_message: Option<Message>,
}

/// Where a message went.
#[derive(Debug)]
pub struct Recipient {
    pub chat_id: Option<ChatId>,
    pub chat_type: ChatType,
    pub user_id: Option<UserId>,
}

/// An attachment of a received message; no kind of attachment is told apart.
#[derive(Debug)]
pub enum Attachment {
    Unknown,
}

/// A markup element of a received message; no kind of element is told apart.
#[derive(Debug)]
pub enum MarkupElement {
    Unknown,
}

/// The content of a message.
#[derive(Debug)]
pub struct MessageBody {
    pub mid: Mid,
    pub seq: MessageSeq,
    pub text: Option<String>,
    pub attachments: Option<Vec<Attachment>>,
    pub markup: Option<Vec<MarkupElement>>,
}

/// A message that another one forwards or replies to.
#[derive(Debug)]
pub struct LinkedMessage {
    /// How the message is linked (`type` on the wire).
    pub link_type: MessageLinkType,
    pub sender: Option<User>,
    pub chat_id: Option<ChatId>,
    pub message: MessageBody,
}

/// Statistics of a message.
#[derive(Debug)]
pub struct MessageStat {
    pub views: Count,
}

/// A message.
#[derive(Debug)]
pub struct Message {
    pub sender: Option<User>,
    pub recipient: Recipient,
    pub timestamp: TimeMs,
    pub link: Option<LinkedMessage>,
    pub body: MessageBody,
    pub stat: Option<MessageStat>,
    /// Public link of the message, as text.
    pub url: Option<String>,
}

/// Token of an uploaded attachment.
pub struct AttachmentToken(String);

impl View for AttachmentToken {
    type V = Seq<char>;

    closed spec fn view(&self) -> Seq<char> {
        self.0@
    }
}

impl AttachmentToken {
    /// Wraps a token.
    pub fn new(token: String) -> (r: Self)
        ensures
            r@ == token@,
    {
        AttachmentToken(token)
    }

    /// The token text.
    pub fn as_str(&self) -> (r: &str)
        ensures
            r@ == self@,
    {
        self.0.as_str()
    }
}

/// Photos given by the token of an earlier upload.
pub struct AttachmentPhotos {
    token: String,
}

impl View for AttachmentPhotos {
    type V = Seq<char>;

    closed spec fn view(&self) -> Seq<char> {
        self.token@
    }
}

impl AttachmentPhotos {
    /// Photos of the upload with this token.
    pub fn new(token: String) -> (r: Self)
        ensures
            r@ == token@,
    {
        AttachmentPhotos { token }
    }

    /// The token text.
    pub fn token(&self) -> (r: &str)
        ensures
            r@ == self@,
    {
        self.token.as_str()
    }
}

/// Where the photo of an outgoing image attachment comes from.
pub enum PhotoAttachmentRequestPayload {
    /// A URL, as text.
    Url(String),
    Token(AttachmentToken),
    Photos(AttachmentPhotos),
}

/// An attachment of an outgoing message.
pub enum AttachmentRequest {
    Image { payload: PhotoAttachmentRequestPayload },
}

/// The message an outgoing message forwards or replies to.
pub struct NewMessageLink {
    /// How the message is linked (`type` on the wire).
    pub link_type: MessageLinkType,
    pub mid: Mid,
}

/// Whether chat members are notified of a sent message; `true` by default.
#[derive(Debug, Clone, Copy, PartialEq, Eq, Structural)]
pub struct Notify(pub bool);

impl Default for Notify {
    fn default() -> (r: Self)
        ensures
            r.0 == true,
    {
        Notify(true)
    }
}

/// The content of an outgoing message.
pub struct NewMessageBody {
    pub text: Option<String>,
    pub attachments: Option<Vec<AttachmentRequest>>,
    pub link: Option<NewMessageLink>,
    pub notify: Notify,
    pub format: Option<TextFormat>,
}

impl Default for NewMessageBody {
    fn default() -> (r: Self)
        ensures
            r.text is None,
            r.attachments is None,
            r.link is None,
            r.notify.0 == true,
            r.format is None,
    {
        NewMessageBody { text: None, attachments: None, link: None, notify: Notify(true), format: None }
    }
}

/// What happened, with its payload. Locales are IETF language tags, as text.
#[derive(Debug)]
pub enum UpdateKind {
    MessageCreated { message: Box<Message>, user_locale: Option<String> },
    BotStarted {
        chat_id: ChatId,
        user: Box<User>,
        payload: Option<String>,
        user_locale: Option<String>,
    },
    Unknown,
}

/// The update type of an update kind: the variant with the same name.
pub open spec fn kind_type(k: UpdateKind) -> UpdateType {
    match k {
        UpdateKind::MessageCreated { .. } => UpdateType::MessageCreated,
        UpdateKind::BotStarted { .. } => UpdateType::BotStarted,
        UpdateKind::Unknown => UpdateType::Unknown,
    }
}

impl UpdateKind {
    /// The kind's update type, as its derived discriminant gives it.
    pub fn update_type(&self) -> (r: UpdateType)
        ensures
            r == kind_type(*self),
    {
        match self {
            UpdateKind::MessageCreated { .. } => UpdateType::MessageCreated,
            UpdateKind::BotStarted { .. } => UpdateType::BotStarted,
            UpdateKind::Unknown => UpdateType::Unknown,
        }
    }
}

/// Each kind has the update type of the same name, and no other: a message kind is
/// `MessageCreated`, a start kind is `BotStarted`, and only the unknown kind is
/// `Unknown`.
pub proof fn update_type_names_the_kind(k: UpdateKind)
    ensures
        (kind_type(k) == UpdateType::MessageCreated) <==> (k is MessageCreated),
        (kind_type(k) == UpdateType::BotStarted) <==> (k is BotStarted),
        (kind_type(k) == UpdateType::Unknown) <==> (k is Unknown),
{
}

/// An event the platform reports to the bot.
#[derive(Debug)]
pub struct Update {
    pub timestamp: TimeMs,
    pub kind: UpdateKind,
}

/// A webhook subscription of the bot.
pub struct Subscription {
    /// The webhook URL, as text.
    pub url: String,
    pub time: TimeMs,
    pub update_types: Option<UpdateTypes>,
}

/// A request to subscribe a webhook.
pub struct SubscriptionRequest {
    /// The webhook URL, as text.
    pub url: String,
    pub update_types: Option<UpdateTypes>,
    pub secret: Option<Secret>,
}

/// The platform's answer to a request that returns no value.
pub enum RequestResult {
    /// `success: true`.
    Success,
    /// `success: false`, with the platform's message.
    Failure { message: String },
}

impl RequestResult {
    /// `Ok(())` for success, `Error::Response` with the message for failure.
    pub fn into_result(self) -> (r: Result<(), Error>)
        ensures
            self is Success ==> r == Ok::<(), Error>(()),
            self matches RequestResult::Failure { message } ==> r == Err::<(), Error>(
                Error::Response { message },
            ),
    {
        match self {
            RequestResult::Success => Ok(()),
            RequestResult::Failure { message } => Err(Error::Response { message }),
        }
    }
}

/// A batch of updates and the marker to poll from next.
pub struct Updates {
    pub updates: Vec<Update>,
    pub marker: Option<Marker>,
}

/// The platform's answer to a sent message.
pub struct SendResult {
    pub message: Message,
}

} // verus!
