//! Adding, removing and clearing reactions on a stored message.

use crate::error::Error;
use crate::indexed::set_contains;
use crate::indexed::set_len;
use crate::indexed::table_contains_key;
use crate::indexed::table_entries;
use crate::indexed::table_get;
use crate::indexed::table_len;
use crate::model::Message;
use vstd::prelude::*;

verus! {

/// A change to the reactions of one message, to be broadcast on the
/// message's channel and then written through.
#[derive(Clone, Debug, PartialEq, Eq)]
pub enum ReactionChange {
    /// `user_id` reacted with `emoji_id`.
    React { id: String, channel_id: String, user_id: String, emoji_id: String },
    /// `user_id` took the reaction with `emoji_id` back; others keep theirs.
    Unreact { id: String, channel_id: String, user_id: String, emoji_id: String },
    /// `emoji_id` leaves the message together with all its reactors.
    RemoveReaction { id: String, channel_id: String, emoji_id: String },
}

impl Message {
    /// The number of distinct emoji the message was reacted to with.
    pub open spec fn reaction_count(&self) -> nat {
        table_entries(self.reactions).dom().len()
    }

    /// Whether anyone reacted with `emoji`.
    pub open spec fn has_reaction(&self, emoji: Seq<char>) -> bool {
        table_entries(self.reactions).contains_key(emoji)
    }

    /// The users who reacted with `emoji`; none when nobody did.
    pub open spec fn reactors(&self, emoji: Seq<char>) -> Seq<Seq<char>> {
        if self.has_reaction(emoji) {
            table_entries(self.reactions)[emoji]
        } else {
            Seq::empty()
        }
    }

    /// Whether a reaction with `emoji` may be added as far as the message
    /// itself decides: a new emoji needs room under `max_reactions`, and
    /// the interaction policy has to allow the emoji.
    pub open spec fn admits_reaction(&self, emoji: Seq<char>, max_reactions: usize) -> bool {
        &&& self.reaction_count() < max_reactions || self.has_reaction(emoji)
        &&& self.interactions.allows(emoji)
    }

    /// Whether `user` can take back a reaction with `emoji`.
    pub open spec fn has_reacted(&self, user: Seq<char>, emoji: Seq<char>) -> bool {
        self.has_reaction(emoji) && self.reactors(emoji).contains(user)
    }

    /// The first half of adding a reaction, before the emoji is looked up:
    /// fails with `InvalidOperation` unless the message admits the reaction.
    pub fn can_add_reaction(&self, emoji: &str, max_reactions: usize) -> (r: Result<(), Error>)
        ensures
            self.admits_reaction(emoji@, max_reactions) ==> r is Ok,
            !self.admits_reaction(emoji@, max_reactions) ==> r == Err::<(), Error>(
                Error::InvalidOperation,
            ),
    {
        if table_len(&self.reactions) >= max_reactions && !table_contains_key(
            &self.reactions,
            emoji,
        ) {
            return Err(Error::InvalidOperation);
        }
        if !self.interactions.can_use(emoji) {
            return Err(Error::InvalidOperation);
        }
        Ok(())
    }

    /// Adds a reaction. `usable` is what the lookup of the emoji answered;
    /// it is read only where the message admits the reaction. On success
    /// the change is to be broadcast and then written through.
    pub fn add_reaction(
        &self,
        user: &str,
        emoji: &str,
        max_reactions: usize,
        usable: Result<bool, Error>,
    ) -> (r: Result<ReactionChange, Error>)
        ensures
            !self.admits_reaction(emoji@, max_reactions) ==> r == Err::<ReactionChange, Error>(
                Error::InvalidOperation,
            ),
            self.admits_reaction(emoji@, max_reactions) ==> match usable {
                Err(e) => r == Err::<ReactionChange, Error>(e),
                Ok(false) => r == Err::<ReactionChange, Error>(Error::InvalidOperation),
                Ok(true) => r matches Ok(ReactionChange::React { id, channel_id, user_id, emoji_id })
                    && id == self.id && channel_id == self.channel && user_id@ == user@
                    && emoji_id@ == emoji@,
            },
    {
        match self.can_add_reaction(emoji, max_reactions) {
            Err(e) => {
                return Err(e);
            },
            Ok(_) => {},
        }
        match usable {
            Err(e) => Err(e),
            Ok(false) => Err(Error::InvalidOperation),
            Ok(true) => Ok(
                ReactionChange::React {
                    id: self.id.clone(),
                    channel_id: self.channel.clone(),
                    user_id: user.to_owned(),
                    emoji_id: emoji.to_owned(),
                },
            ),
        }
    }

    /// Takes back the reaction of `user` with `emoji`. Fails with
    /// `NotFound` unless `user` reacted with `emoji`. Where `user` is the
    /// only reactor the whole emoji leaves the message, else `user` alone.
    pub fn remove_reaction(&self, user: &str, emoji: &str) -> (r: Result<ReactionChange, Error>)
        ensures
            !self.has_reacted(user@, emoji@) ==> r == Err::<ReactionChange, Error>(Error::NotFound),
            self.has_reacted(user@, emoji@) && self.reactors(emoji@).len() == 1 ==> (r matches Ok(
                ReactionChange::RemoveReaction { id, channel_id, emoji_id },
            ) && id == self.id && channel_id == self.channel && emoji_id@ == emoji@),
            self.has_reacted(user@, emoji@) && self.reactors(emoji@).len() != 1 ==> (r matches Ok(
                ReactionChange::Unreact { id, channel_id, user_id, emoji_id },
            ) && id == self.id && channel_id == self.channel && user_id@ == user@ && emoji_id@
                == emoji@),
    {
        let empty = if let Some(users) = table_get(&self.reactions, emoji) {
            if !set_contains(users, user) {
                return Err(Error::NotFound);
            }
            set_len(users) == 1
        } else {
            return Err(Error::NotFound);
        };
        if empty {
            Ok(
                ReactionChange::RemoveReaction {
                    id: self.id.clone(),
                    channel_id: self.channel.clone(),
                    emoji_id: emoji.to_owned(),
                },
            )
        } else {
            Ok(
                ReactionChange::Unreact {
                    id: self.id.clone(),
                    channel_id: self.channel.clone(),
                    user_id: user.to_owned(),
                    emoji_id: emoji.to_owned(),
                },
            )
        }
    }

    /// Removes `emoji` with all its reactors, whether or not anyone used it.
    pub fn clear_reaction(&self, emoji: &str) -> (r: ReactionChange)
        ensures
            r matches ReactionChange::RemoveReaction { id, channel_id, emoji_id } && id == self.id
                && channel_id == self.channel && emoji_id@ == emoji@,
    {
        ReactionChange::RemoveReaction {
            id: self.id.clone(),
            channel_id: self.channel.clone(),
            emoji_id: emoji.to_owned(),
        }
    }
}

/// A new emoji is refused exactly from the limit on, and an emoji already
/// on the message is never refused for want of room.
pub proof fn lemma_reaction_limit(m: Message, emoji: Seq<char>, max_reactions: usize)
    requires
        m.interactions.allows(emoji),
    ensures
        m.has_reaction(emoji) ==> m.admits_reaction(emoji, max_reactions),
        !m.has_reaction(emoji) ==> (m.admits_reaction(emoji, max_reactions) <==> m.reaction_count()
            < max_reactions),
{
}

} // verus!
