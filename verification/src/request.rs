//! What a caller hands in to send a message: the payload, who sends it,
//! where it goes, and the limits in force.

use crate::ident::system_author;
use crate::ident::system_author_id;
use crate::model::Interactions;
use crate::model::Masquerade;
use crate::model::MessageWebhook;
use crate::model::SendableEmbed;
use vstd::prelude::*;

verus! {

/// A wish to reply to a message.
#[derive(Clone, Debug, PartialEq, Eq)]
pub struct ReplyIntent {
    /// The message replied to.
    pub id: String,
    /// Whether the reply mentions the author of that message.
    pub mention: bool,
    /// Whether the send fails when that message does not exist. Absent
    /// means that it does.
    pub fail_if_not_exists: Option<bool>,
}

impl ReplyIntent {
    /// Whether a missing target makes the whole send fail.
    pub open spec fn strict(self) -> bool {
        self.fail_if_not_exists != Some(false)
    }
}

/// The payload of a send request.
#[derive(Clone, Debug, PartialEq, Eq)]
pub struct DataMessageSend {
    /// Value chosen by the client to tell a repeated request from a new one.
    pub nonce: Option<String>,
    /// Written content.
    pub content: Option<String>,
    /// Ids of the uploads to attach.
    pub attachments: Option<Vec<String>>,
    /// Messages to reply to.
    pub replies: Option<Vec<ReplyIntent>>,
    /// Embeds to include.
    pub embeds: Option<Vec<SendableEmbed>>,
    /// Name and avatar overrides.
    pub masquerade: Option<Masquerade>,
    /// How the message may be reacted to.
    pub interactions: Option<Interactions>,
    /// Raw bitfield of behavioural flags.
    pub flags: Option<u32>,
}

/// A user as far as sending a message depends on one.
#[derive(Clone, Debug, PartialEq, Eq)]
pub struct User {
    pub id: String,
    /// Whether the user is a bot.
    pub bot: bool,
}

/// Who sends a message.
#[derive(Clone, Debug, PartialEq, Eq)]
pub enum MessageAuthor {
    /// An ordinary user or a bot.
    User(User),
    /// A webhook.
    Webhook { id: String, name: String, avatar: Option<String> },
    /// The system itself.
    System { username: String, avatar: Option<String> },
}

/// Where a message goes.
#[derive(Clone, Debug, PartialEq, Eq)]
pub enum Channel {
    /// A user's notes to self.
    SavedMessages { id: String, user: String },
    /// A conversation between two users.
    DirectMessage { id: String, recipients: Vec<String> },
    /// A conversation between several users.
    Group { id: String, recipients: Vec<String> },
    /// A text channel of a server.
    TextChannel { id: String, server: String },
    /// A voice channel of a server.
    VoiceChannel { id: String, server: String },
}

/// The limits of the caller's tier.
#[derive(Clone, Copy, Debug, PartialEq, Eq, Structural)]
pub struct FeaturesLimits {
    /// Largest textual size of a message, in bytes.
    pub message_length: usize,
    /// Largest number of attachments of a message.
    pub message_attachments: usize,
}

/// The settings that hold for every caller, as read for one call.
#[derive(Clone, Copy, Debug, PartialEq, Eq, Structural)]
pub struct Config {
    /// Whether mass mentions are switched on at all.
    pub mass_mentions_enabled: bool,
    /// Largest number of replies of a message.
    pub message_replies: usize,
    /// Largest number of embeds of a message.
    pub message_embeds: usize,
    /// Largest number of distinct emoji on a message.
    pub message_reactions: usize,
}

impl DataMessageSend {
    /// The ids of the uploads to attach; none where the field is absent.
    pub open spec fn attachment_ids(self) -> Seq<String> {
        match self.attachments {
            Some(ids) => ids@,
            None => Seq::empty(),
        }
    }

    /// The embeds to include; none where the field is absent.
    pub open spec fn sendable_embeds(self) -> Seq<SendableEmbed> {
        match self.embeds {
            Some(embeds) => embeds@,
            None => Seq::empty(),
        }
    }

    /// The reply intents; none where the field is absent.
    pub open spec fn reply_intents(self) -> Seq<ReplyIntent> {
        match self.replies {
            Some(entries) => entries@,
            None => Seq::empty(),
        }
    }

    /// Whether the payload carries nothing to show: no content or an
    /// empty one, and neither attachments nor embeds.
    pub open spec fn is_empty(self) -> bool {
        &&& self.content matches Some(text) ==> text@.len() == 0
        &&& self.attachment_ids().len() == 0
        &&& self.sendable_embeds().len() == 0
    }
}

impl DataMessageSend {
    /// The reply intents; none where the field is absent.
    pub fn intents(&self) -> (r: &[ReplyIntent])
        ensures
            r@ == self.reply_intents(),
    {
        match &self.replies {
            Some(entries) => entries.as_slice(),
            None => &[],
        }
    }

    /// The ids of the uploads to attach; none where the field is absent.
    pub fn uploads(&self) -> (r: &[String])
        ensures
            r@ == self.attachment_ids(),
    {
        match &self.attachments {
            Some(ids) => ids.as_slice(),
            None => &[],
        }
    }

    /// The embeds to include; none where the field is absent.
    pub fn submitted_embeds(&self) -> (r: &[SendableEmbed])
        ensures
            r@ == self.sendable_embeds(),
    {
        match &self.embeds {
            Some(embeds) => embeds.as_slice(),
            None => &[],
        }
    }
}

impl MessageAuthor {
    /// The id that a message of this author carries.
    pub open spec fn id(self) -> Seq<char> {
        match self {
            MessageAuthor::User(user) => user.id@,
            MessageAuthor::Webhook { id, .. } => id@,
            MessageAuthor::System { .. } => system_author(),
        }
    }

    /// The webhook that a message of this author names, if it is one.
    pub open spec fn webhook(self) -> Option<MessageWebhook> {
        match self {
            MessageAuthor::Webhook { name, avatar, .. } => Some(MessageWebhook { name, avatar }),
            _ => None,
        }
    }

    /// The id that a message of this author carries.
    pub fn author_id(&self) -> (r: String)
        ensures
            r@ == self.id(),
    {
        match self {
            MessageAuthor::User(user) => user.id.clone(),
            MessageAuthor::Webhook { id, .. } => id.clone(),
            MessageAuthor::System { .. } => system_author_id(),
        }
    }

    /// The webhook that a message of this author names, if it is one.
    pub fn message_webhook(&self) -> (r: Option<MessageWebhook>)
        ensures
            r == self.webhook(),
    {
        match self {
            MessageAuthor::Webhook { name, avatar, .. } => Some(
                MessageWebhook { name: name.clone(), avatar: clone_text(avatar) },
            ),
            _ => None,
        }
    }
}

impl Channel {
    /// The channel's id.
    pub open spec fn spec_id(self) -> String {
        match self {
            Channel::SavedMessages { id, .. } => id,
            Channel::DirectMessage { id, .. } => id,
            Channel::Group { id, .. } => id,
            Channel::TextChannel { id, .. } => id,
            Channel::VoiceChannel { id, .. } => id,
        }
    }

    /// The server that the channel belongs to, if it belongs to one.
    pub open spec fn spec_server(self) -> Option<String> {
        match self {
            Channel::TextChannel { server, .. } => Some(server),
            Channel::VoiceChannel { server, .. } => Some(server),
            _ => None,
        }
    }

    /// Whether the channel is a conversation between two users.
    pub open spec fn is_direct_message(self) -> bool {
        self is DirectMessage
    }

    /// The channel's id.
    pub fn id(&self) -> (r: &String)
        ensures
            *r == self.spec_id(),
    {
        match self {
            Channel::SavedMessages { id, .. } => id,
            Channel::DirectMessage { id, .. } => id,
            Channel::Group { id, .. } => id,
            Channel::TextChannel { id, .. } => id,
            Channel::VoiceChannel { id, .. } => id,
        }
    }

    /// The server that the channel belongs to, if it belongs to one.
    pub fn server(&self) -> (r: Option<&String>)
        ensures
            r matches Some(s) ==> self.spec_server() == Some(*s),
            r is None ==> self.spec_server() is None,
    {
        match self {
            Channel::TextChannel { server, .. } => Some(server),
            Channel::VoiceChannel { server, .. } => Some(server),
            _ => None,
        }
    }
}

/// A copy of a text that may be absent.
pub fn clone_text(text: &Option<String>) -> (r: Option<String>)
    ensures
        r == *text,
{
    match text {
        Some(t) => Some(t.clone()),
        None => None,
    }
}

/// The lists of a payload are held in memory, so that their lengths are
/// machine numbers.
pub proof fn lemma_counts_fit(data: DataMessageSend)
    ensures
        data.reply_intents().len() <= usize::MAX,
        data.attachment_ids().len() <= usize::MAX,
        data.sendable_embeds().len() <= usize::MAX,
{
    if let Some(entries) = data.replies {
        assert(entries@.len() == entries.len());
    }
    if let Some(ids) = data.attachments {
        assert(ids@.len() == ids.len());
    }
    if let Some(embeds) = data.embeds {
        assert(embeds@.len() == embeds.len());
    }
}

} // verus!
