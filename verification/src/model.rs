//! The message and the records it owns.

use crate::flags::bit_set;
use crate::flags::MessageFlags;
use crate::flags::MessageFlagsValue;
use crate::indexed::no_entries;
use crate::indexed::table_entries;
use crate::indexed::table_new;
use indexmap::IndexMap;
use indexmap::IndexSet;
use iso8601_timestamp::Timestamp;
use vstd::prelude::*;

verus! {

/// `iso8601_timestamp::Timestamp`, taken as it is: a message carries the
/// time of its last edit and never looks into it.
#[verifier::external_type_specification]
#[verifier::external_body]
pub struct ExTimestamp(Timestamp);

/// A stored upload, bound to the message and author that used it.
#[derive(Clone, Debug, PartialEq, Eq)]
pub struct File {
    /// Unique id of the upload.
    pub id: String,
    /// Name the file was uploaded under.
    pub filename: String,
    /// Media type of the contents.
    pub content_type: String,
    /// Size in bytes.
    pub size: u64,
}

/// A text embed as it is stored.
#[derive(Clone, Debug, PartialEq, Eq)]
pub struct Text {
    pub icon_url: Option<String>,
    pub url: Option<String>,
    pub title: Option<String>,
    pub description: Option<String>,
    pub media: Option<File>,
    pub colour: Option<String>,
}

/// An embed attached to a message.
#[derive(Clone, Debug, PartialEq, Eq)]
pub enum Embed {
    /// Text written by the sender.
    Text(Text),
}

/// A text embed as a client submits it: media is still an upload id.
#[derive(Clone, Debug, PartialEq, Eq)]
pub struct SendableEmbed {
    pub icon_url: Option<String>,
    pub url: Option<String>,
    pub title: Option<String>,
    pub description: Option<String>,
    pub media: Option<String>,
    pub colour: Option<String>,
}

/// Name and avatar of the webhook that sent a message.
#[derive(Clone, Debug, PartialEq, Eq)]
pub struct MessageWebhook {
    pub name: String,
    pub avatar: Option<String>,
}

/// Name and avatar overrides shown in place of the author's own.
#[derive(Clone, Debug, PartialEq, Eq)]
pub struct Masquerade {
    /// Replaces the display name.
    pub name: Option<String>,
    /// Replaces the avatar (URL of an image).
    pub avatar: Option<String>,
    /// Replaces the display colour of the author's role.
    pub colour: Option<String>,
}

/// An event recorded in a channel in place of written content.
#[derive(Clone, Debug, PartialEq, Eq)]
pub enum SystemMessage {
    Text { content: String },
    UserAdded { id: String, by: String },
    UserRemove { id: String, by: String },
    UserJoined { id: String },
    UserLeft { id: String },
    UserKicked { id: String },
    UserBanned { id: String },
    ChannelRenamed { name: String, by: String },
    ChannelDescriptionChanged { by: String },
    ChannelIconChanged { by: String },
    ChannelOwnershipChanged { from: String, to: String },
    MessagePinned { id: String, by: String },
    MessageUnpinned { id: String, by: String },
}

/// How a message may be reacted to.
#[derive(Clone, Debug, PartialEq, Eq)]
pub struct Interactions {
    /// Reactions that always appear, each once.
    pub reactions: Option<IndexSet<String>>,
    /// Whether reactions are restricted to that list. It may be true only
    /// with a list of at least one entry.
    pub restrict_reactions: bool,
}

/// Embeds added to a message after it was sent.
#[derive(Clone, Debug, PartialEq, Eq)]
pub struct AppendMessage {
    pub embeds: Option<Vec<Embed>>,
}

/// A field of a message that an update can clear.
#[derive(Clone, Copy, Debug, PartialEq, Eq, Structural)]
pub enum FieldsMessage {
    Pinned,
}

/// A message.
#[derive(Clone, Debug, PartialEq, Eq)]
pub struct Message {
    /// Unique id, sortable by time of creation.
    pub id: String,
    /// The key echoed to the client that sent the message.
    pub nonce: Option<String>,
    /// Id of the channel the message was sent in.
    pub channel: String,
    /// Id of the user or webhook that sent the message.
    pub author: String,
    /// The webhook that sent the message.
    pub webhook: Option<MessageWebhook>,
    /// Written content.
    pub content: Option<String>,
    /// The event, for a system message.
    pub system: Option<SystemMessage>,
    /// Attachments, in the order given.
    pub attachments: Option<Vec<File>>,
    /// When the message was last edited.
    pub edited: Option<Timestamp>,
    /// Embeds, in the order given.
    pub embeds: Option<Vec<Embed>>,
    /// Ids of the users mentioned, each once.
    pub mentions: Option<Vec<String>>,
    /// Ids of the roles mentioned, each once.
    pub role_mentions: Option<Vec<String>>,
    /// Ids of the messages replied to, each once.
    pub replies: Option<Vec<String>>,
    /// For each emoji, in the order of first use, the users who reacted with it.
    pub reactions: IndexMap<String, IndexSet<String>>,
    /// How the message may be reacted to.
    pub interactions: Interactions,
    /// Name and avatar overrides.
    pub masquerade: Option<Masquerade>,
    /// Whether the message is pinned.
    pub pinned: Option<bool>,
    /// Bitfield of behavioural flags.
    pub flags: Option<u32>,
}

/// The fields of a message that an update replaces: those that are given.
#[derive(Clone, Debug, PartialEq, Eq)]
pub struct PartialMessage {
    pub id: Option<String>,
    pub nonce: Option<String>,
    pub channel: Option<String>,
    pub author: Option<String>,
    pub webhook: Option<MessageWebhook>,
    pub content: Option<String>,
    pub system: Option<SystemMessage>,
    pub attachments: Option<Vec<File>>,
    pub edited: Option<Timestamp>,
    pub embeds: Option<Vec<Embed>>,
    pub mentions: Option<Vec<String>>,
    pub role_mentions: Option<Vec<String>>,
    pub replies: Option<Vec<String>>,
    pub reactions: Option<IndexMap<String, IndexSet<String>>>,
    pub interactions: Option<Interactions>,
    pub masquerade: Option<Masquerade>,
    pub pinned: Option<bool>,
    pub flags: Option<u32>,
}

impl Interactions {
    /// Whether the policy is the one a message has when none was given.
    pub open spec fn spec_is_default(&self) -> bool {
        !self.restrict_reactions && self.reactions is None
    }

    /// Whether the policy is the one a message has when none was given.
    #[verifier::when_used_as_spec(spec_is_default)]
    pub fn is_default(&self) -> (r: bool)
        ensures
            r == self.spec_is_default(),
    {
        !self.restrict_reactions && self.reactions.is_none()
    }
}

impl Default for Interactions {
    fn default() -> (r: Self)
        ensures
            r.spec_is_default(),
    {
        Interactions { reactions: None, restrict_reactions: false }
    }
}

impl Message {
    /// Whether nothing but id, channel and author may be set: every
    /// optional field is absent and there are no reactions.
    pub open spec fn is_bare(&self) -> bool {
        &&& self.nonce is None
        &&& self.webhook is None
        &&& self.content is None
        &&& self.system is None
        &&& self.attachments is None
        &&& self.edited is None
        &&& self.embeds is None
        &&& self.mentions is None
        &&& self.role_mentions is None
        &&& self.replies is None
        &&& table_entries(self.reactions) == no_entries()
        &&& self.interactions.spec_is_default()
        &&& self.masquerade is None
        &&& self.pinned is None
        &&& self.flags is None
    }
}

impl Default for Message {
    fn default() -> (r: Self)
        ensures
            r.is_bare(),
            r.well_formed(),
            r.id@.len() == 0,
            r.channel@.len() == 0,
            r.author@.len() == 0,
    {
        Message {
            id: String::new(),
            nonce: None,
            channel: String::new(),
            author: String::new(),
            webhook: None,
            content: None,
            system: None,
            attachments: None,
            edited: None,
            embeds: None,
            mentions: None,
            role_mentions: None,
            replies: None,
            reactions: table_new(),
            interactions: Interactions::default(),
            masquerade: None,
            flags: None,
            pinned: None,
        }
    }
}

/// The entries of a list that may be absent; none where it is absent.
pub open spec fn listed(list: Option<Vec<String>>) -> Seq<Seq<char>> {
    match list {
        Some(ids) => ids.deep_view(),
        None => Seq::empty(),
    }
}

/// Whether a list is stored as a set: absent rather than empty, and
/// without an entry that comes twice.
pub open spec fn stored_as_set(list: Option<Vec<String>>) -> bool {
    &&& list matches Some(ids) ==> ids.len() > 0
    &&& listed(list).no_duplicates()
}

impl Message {
    /// Whether the message is one that may be stored: its flags hold
    /// defined bits only and do not mention both everyone and everyone
    /// online, its interaction policy restricts reactions only to a list
    /// that holds something, and its lists of mentions and replies are
    /// stored as sets.
    pub open spec fn well_formed(&self) -> bool {
        &&& self.flags matches Some(flags) ==> flags <= 7 && !(bit_set(flags, 1) && bit_set(flags, 2))
        &&& !self.interactions.restricts_to_nothing()
        &&& stored_as_set(self.mentions)
        &&& stored_as_set(self.role_mentions)
        &&& stored_as_set(self.replies)
    }

    /// Whether the message sends no notification: bit 0 of its flags is
    /// set. A message without flags notifies.
    pub open spec fn spec_has_suppressed_notifications(&self) -> bool {
        self.flags matches Some(flags) && bit_set(flags, 0)
    }

    /// Whether the message reaches many users at once: it mentions
    /// everyone, or it mentions a role.
    pub open spec fn spec_contains_mass_push_mention(&self) -> bool {
        (self.flags matches Some(flags) && bit_set(flags, 1)) || self.role_mentions is Some
    }

    /// Whether the message has suppressed notifications.
    #[verifier::when_used_as_spec(spec_has_suppressed_notifications)]
    pub fn has_suppressed_notifications(&self) -> (r: bool)
        ensures
            r == self.spec_has_suppressed_notifications(),
    {
        if let Some(flags) = self.flags {
            MessageFlagsValue(flags).has(MessageFlags::SuppressNotifications)
        } else {
            false
        }
    }

    /// Whether the message mentions everyone or any role.
    #[verifier::when_used_as_spec(spec_contains_mass_push_mention)]
    pub fn contains_mass_push_mention(&self) -> (r: bool)
        ensures
            r == self.spec_contains_mass_push_mention(),
    {
        let ping = if let Some(flags) = self.flags {
            MessageFlagsValue(flags).has(MessageFlags::MentionsEveryone)
        } else {
            false
        };
        ping || self.role_mentions.is_some()
    }

    /// Clears `field`.
    pub fn remove_field(&mut self, field: &FieldsMessage)
        ensures
            *final(self) == (Message { pinned: None, ..*old(self) }),
    {
        match field {
            FieldsMessage::Pinned => self.pinned = None,
        }
    }
}

} // verus!
