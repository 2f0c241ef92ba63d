//! The failures a caller can be handed, one per failed call.

use vstd::prelude::*;

verus! {

/// A channel capability that the permission oracle is asked about.
#[derive(Clone, Copy, Debug, PartialEq, Eq, Structural)]
pub enum ChannelPermission {
    /// Seeing the channel at all.
    ViewChannel,
    /// Reacting to messages.
    React,
    /// Mentioning everyone or everyone online.
    MentionEveryone,
    /// Mentioning roles.
    MentionRoles,
}

/// Why a call failed. Nothing is retried inside the library.
#[derive(Clone, Debug, PartialEq, Eq)]
pub enum Error {
    /// Neither content nor attachments nor embeds were given.
    EmptyMessage,
    /// A field of the request holds a value that can never be accepted.
    InvalidProperty,
    /// The raw flags ask for two behaviours that exclude each other.
    InvalidFlagValue,
    /// The request needs a bot and the caller is an ordinary user.
    IsNotBot,
    /// The caller lacks a capability in the channel.
    MissingPermission { permission: ChannelPermission },
    /// More reply intents than the configured maximum.
    TooManyReplies { max: usize },
    /// More attachments than the caller's tier allows.
    TooManyAttachments { max: usize },
    /// More embeds than the configured maximum.
    TooManyEmbeds { max: usize },
    /// Content and embed descriptions together exceed the length limit.
    PayloadTooLarge,
    /// An embed did not pass field validation.
    FailedValidation { error: String },
    /// The nonce was already consumed inside the dedup window.
    DuplicateRequest,
    /// What was asked for does not exist.
    NotFound,
    /// The operation is not allowed in the current state.
    InvalidOperation,
    /// A collaborator failed in a way the caller's input does not explain.
    InternalError,
}

impl ChannelPermission {
    /// The capability's name as it is shown to clients.
    pub open spec fn spec_name(self) -> Seq<char> {
        match self {
            ChannelPermission::ViewChannel => "ViewChannel"@,
            ChannelPermission::React => "React"@,
            ChannelPermission::MentionEveryone => "MentionEveryone"@,
            ChannelPermission::MentionRoles => "MentionRoles"@,
        }
    }

    /// The capability's name as it is shown to clients.
    pub fn name(self) -> (r: String)
        ensures
            r@ == self.spec_name(),
    {
        match self {
            ChannelPermission::ViewChannel => "ViewChannel".to_owned(),
            ChannelPermission::React => "React".to_owned(),
            ChannelPermission::MentionEveryone => "MentionEveryone".to_owned(),
            ChannelPermission::MentionRoles => "MentionRoles".to_owned(),
        }
    }
}

/// What the permission oracle answered for one user in one channel.
#[derive(Clone, Copy, Debug, PartialEq, Eq, Structural)]
pub struct PermissionValue {
    pub view_channel: bool,
    pub react: bool,
    pub mention_everyone: bool,
    pub mention_roles: bool,
}

impl PermissionValue {
    /// Whether the answer grants `permission`.
    pub open spec fn grants(self, permission: ChannelPermission) -> bool {
        match permission {
            ChannelPermission::ViewChannel => self.view_channel,
            ChannelPermission::React => self.react,
            ChannelPermission::MentionEveryone => self.mention_everyone,
            ChannelPermission::MentionRoles => self.mention_roles,
        }
    }

    /// Whether the answer grants `permission`.
    pub fn has_channel_permission(&self, permission: ChannelPermission) -> (r: bool)
        ensures
            r == self.grants(permission),
    {
        match permission {
            ChannelPermission::ViewChannel => self.view_channel,
            ChannelPermission::React => self.react,
            ChannelPermission::MentionEveryone => self.mention_everyone,
            ChannelPermission::MentionRoles => self.mention_roles,
        }
    }

    /// Fails with `MissingPermission` naming `permission` unless it is granted.
    pub fn throw_if_lacking_channel_permission(&self, permission: ChannelPermission) -> (r: Result<(), Error>)
        ensures
            self.grants(permission) ==> r is Ok,
            !self.grants(permission) ==> r == Err::<(), Error>(Error::MissingPermission { permission }),
    {
        if self.has_channel_permission(permission) {
            Ok(())
        } else {
            Err(Error::MissingPermission { permission })
        }
    }
}

} // verus!
