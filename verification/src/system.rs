//! System messages and updates of stored messages.

use crate::ident::fresh_id;
use crate::ident::is_id_text;
use crate::ident::system_author;
use crate::ident::system_author_id;
use crate::indexed::table_new;
use crate::model::FieldsMessage;
use crate::model::Interactions;
use crate::model::Message;
use crate::model::PartialMessage;
use crate::model::SystemMessage;
use vstd::prelude::*;

verus! {

/// The value of a field after an update: the new one where one is given.
pub open spec fn replaced<T>(old: T, new: Option<T>) -> T {
    match new {
        Some(value) => value,
        None => old,
    }
}

/// The value of an optional field after an update: the new one where one
/// is given.
pub open spec fn replaced_option<T>(old: Option<T>, new: Option<T>) -> Option<T> {
    match new {
        Some(value) => Some(value),
        None => old,
    }
}

/// `m` with the fields that `partial` gives put in place of its own.
pub open spec fn patched(m: Message, partial: PartialMessage) -> Message {
    Message {
        id: replaced(m.id, partial.id),
        nonce: replaced_option(m.nonce, partial.nonce),
        channel: replaced(m.channel, partial.channel),
        author: replaced(m.author, partial.author),
        webhook: replaced_option(m.webhook, partial.webhook),
        content: replaced_option(m.content, partial.content),
        system: replaced_option(m.system, partial.system),
        attachments: replaced_option(m.attachments, partial.attachments),
        edited: replaced_option(m.edited, partial.edited),
        embeds: replaced_option(m.embeds, partial.embeds),
        mentions: replaced_option(m.mentions, partial.mentions),
        role_mentions: replaced_option(m.role_mentions, partial.role_mentions),
        replies: replaced_option(m.replies, partial.replies),
        reactions: replaced(m.reactions, partial.reactions),
        interactions: replaced(m.interactions, partial.interactions),
        masquerade: replaced_option(m.masquerade, partial.masquerade),
        pinned: replaced_option(m.pinned, partial.pinned),
        flags: replaced_option(m.flags, partial.flags),
    }
}

/// `m` with the fields that `remove` names cleared.
pub open spec fn cleared(m: Message, remove: Seq<FieldsMessage>) -> Message {
    if remove.contains(FieldsMessage::Pinned) {
        Message { pinned: None, ..m }
    } else {
        m
    }
}

fn put<T>(slot: &mut T, new: Option<T>)
    ensures
        *final(slot) == replaced(*old(slot), new),
{
    if let Some(value) = new {
        *slot = value;
    }
}

fn put_option<T>(slot: &mut Option<T>, new: Option<T>)
    ensures
        *final(slot) == replaced_option(*old(slot), new),
{
    if let Some(value) = new {
        *slot = Some(value);
    }
}

impl Message {
    /// Puts the fields that `partial` gives in place of the message's own.
    pub fn apply_options(&mut self, partial: PartialMessage)
        ensures
            *final(self) == patched(*old(self), partial),
    {
        put(&mut self.id, partial.id);
        put_option(&mut self.nonce, partial.nonce);
        put(&mut self.channel, partial.channel);
        put(&mut self.author, partial.author);
        put_option(&mut self.webhook, partial.webhook);
        put_option(&mut self.content, partial.content);
        put_option(&mut self.system, partial.system);
        put_option(&mut self.attachments, partial.attachments);
        put_option(&mut self.edited, partial.edited);
        put_option(&mut self.embeds, partial.embeds);
        put_option(&mut self.mentions, partial.mentions);
        put_option(&mut self.role_mentions, partial.role_mentions);
        put_option(&mut self.replies, partial.replies);
        put(&mut self.reactions, partial.reactions);
        put(&mut self.interactions, partial.interactions);
        put_option(&mut self.masquerade, partial.masquerade);
        put_option(&mut self.pinned, partial.pinned);
        put_option(&mut self.flags, partial.flags);
    }

    /// Updates the message as it is held here: first the fields that
    /// `partial` gives are put in place, then the fields that `remove`
    /// names are cleared. The same two values are what is to be written
    /// through and broadcast.
    pub fn update(&mut self, partial: PartialMessage, remove: &Vec<FieldsMessage>)
        ensures
            *final(self) == cleared(patched(*old(self), partial), remove@),
    {
        self.apply_options(partial);
        let ghost patched = *self;
        let mut i: usize = 0;
        while i < remove.len()
            invariant
                i <= remove.len(),
                *self == cleared(patched, remove@.take(i as int)),
            decreases remove.len() - i,
        {
            assert(remove@.take(i as int + 1) =~= remove@.take(i as int).push(remove@[i as int]));
            assert(remove@.take(i as int + 1).contains(FieldsMessage::Pinned)) by {
                assert(remove@.take(i as int + 1)[i as int] == FieldsMessage::Pinned);
            }
            self.remove_field(&remove[i]);
            i = i + 1;
        }
        assert(remove@.take(remove.len() as int) =~= remove@);
    }
}

impl SystemMessage {
    /// Whether `m` is the message that records this event in `channel`
    /// under the id `id`: written by the system, and bare otherwise.
    pub open spec fn recorded_as(self, channel: String, id: Seq<char>, m: Message) -> bool {
        &&& m.id@ == id
        &&& m.channel == channel
        &&& m.author@ == system_author()
        &&& m.system == Some(self)
        &&& (Message { system: None, ..m }).is_bare()
    }

    /// Makes the message that records this event in `channel` under a
    /// given id.
    pub fn into_message_with_id(self, channel: String, id: String) -> (r: Message)
        ensures
            self.recorded_as(channel, id@, r),
            r.well_formed(),
    {
        Message {
            id,
            channel,
            author: system_author_id(),
            system: Some(self),
            nonce: None,
            webhook: None,
            content: None,
            attachments: None,
            edited: None,
            embeds: None,
            mentions: None,
            role_mentions: None,
            replies: None,
            reactions: table_new(),
            interactions: Interactions::default(),
            masquerade: None,
            flags: None,
            pinned: None,
        }
    }

    /// Makes the message that records this event in `channel`. Its id is
    /// made here: which identifier it is is open.
    pub fn into_message(self, channel: String) -> (r: Message)
        ensures
            is_id_text(r.id@),
            self.recorded_as(channel, r.id@, r),
            r.well_formed(),
    {
        self.into_message_with_id(channel, fresh_id())
    }
}

} // verus!
