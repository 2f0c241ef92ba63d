//! The interaction policy of a message: which emoji may be used to react.

use crate::error::ChannelPermission;
use crate::error::Error;
use crate::error::PermissionValue;
use crate::indexed::set_contains;
use crate::indexed::set_items;
use crate::indexed::set_len;
use crate::indexed::set_to_vec;
use crate::model::Interactions;
use vstd::prelude::*;

verus! {

impl Interactions {
    /// The whitelist, in insertion order; empty when there is none.
    pub open spec fn whitelist(&self) -> Seq<Seq<char>> {
        match self.reactions {
            Some(list) => set_items(list),
            None => Seq::empty(),
        }
    }

    /// Whether the policy lets `emoji` be used: always when reactions are
    /// not restricted, else only when the whitelist holds it.
    pub open spec fn allows(&self, emoji: Seq<char>) -> bool {
        !self.restrict_reactions || self.whitelist().contains(emoji)
    }

    /// Whether the policy restricts reactions to a whitelist that holds
    /// nothing, which no request may ask for.
    pub open spec fn restricts_to_nothing(&self) -> bool {
        self.restrict_reactions && self.whitelist().len() == 0
    }

    /// Whether `emoji` may be used to react.
    pub fn can_use(&self, emoji: &str) -> (r: bool)
        ensures
            r == self.allows(emoji@),
    {
        if self.restrict_reactions {
            if let Some(reactions) = &self.reactions {
                set_contains(reactions, emoji)
            } else {
                false
            }
        } else {
            true
        }
    }

    /// Rejects a policy that restricts reactions without naming any.
    pub fn check_restriction(&self) -> (r: Result<(), Error>)
        ensures
            self.restricts_to_nothing() ==> r == Err::<(), Error>(Error::InvalidProperty),
            !self.restricts_to_nothing() ==> r is Ok,
    {
        if self.restrict_reactions {
            let disallowed = if let Some(list) = &self.reactions {
                set_len(list) == 0
            } else {
                true
            };
            if disallowed {
                return Err(Error::InvalidProperty);
            }
        }
        Ok(())
    }

    /// What `validate` answers before any emoji is looked up.
    pub open spec fn validate_spec(&self, permissions: PermissionValue, max_reactions: usize) -> Result<Seq<Seq<char>>, Error> {
        if self.reactions is None {
            Ok(Seq::empty())
        } else if !permissions.grants(ChannelPermission::React) {
            Err(Error::MissingPermission { permission: ChannelPermission::React })
        } else if self.whitelist().len() > max_reactions {
            Err(Error::InvalidOperation)
        } else {
            Ok(self.whitelist())
        }
    }

    /// Checks a policy that a caller wants to put on a message. A policy
    /// without a list passes. One with a list needs the `React` capability
    /// and at most `max_reactions` entries. On success the entries come
    /// back in order: each has still to be looked up, and `emoji_checked`
    /// says what a lookup's answer means.
    pub fn validate(&self, permissions: &PermissionValue, max_reactions: usize) -> (r: Result<Vec<String>, Error>)
        ensures
            self.validate_spec(*permissions, max_reactions) matches Ok(list) ==> r matches Ok(v)
                && v.deep_view() == list,
            self.validate_spec(*permissions, max_reactions) matches Err(e) ==> r matches Err(x)
                && x == e,
    {
        if let Some(reactions) = &self.reactions {
            match permissions.throw_if_lacking_channel_permission(ChannelPermission::React) {
                Err(e) => {
                    return Err(e);
                },
                Ok(_) => {},
            }
            if set_len(reactions) > max_reactions {
                return Err(Error::InvalidOperation);
            }
            Ok(set_to_vec(reactions))
        } else {
            let none: Vec<String> = Vec::new();
            assert(none.deep_view() =~= Seq::<Seq<char>>::empty());
            Ok(none)
        }
    }

    /// The verdict on one emoji of the list once it was looked up: a failed
    /// lookup is handed on, an emoji that cannot be used is refused.
    pub fn emoji_checked(usable: Result<bool, Error>) -> (r: Result<(), Error>)
        ensures
            usable matches Ok(true) ==> r is Ok,
            usable matches Ok(false) ==> r == Err::<(), Error>(Error::InvalidOperation),
            usable matches Err(e) ==> r == Err::<(), Error>(e),
    {
        match usable {
            Ok(true) => Ok(()),
            Ok(false) => Err(Error::InvalidOperation),
            Err(e) => Err(e),
        }
    }
}

} // verus!
