//! What follows once a message is made: it is stored, and the consumers
//! downstream are told, each by a task that is handed over and not waited for.

use crate::model::Message;
use crate::request::Channel;
use vstd::prelude::*;

verus! {

/// Who receives the push notification for a message.
#[derive(Clone, Copy, Debug, PartialEq, Eq, Structural)]
pub enum PushTarget {
    /// The recipients of the channel.
    Recipients,
    /// The users that the message mentions.
    Mentions,
    /// Nobody.
    Nobody,
}

/// One thing to do for a message that was made. The tasks of a plan are
/// carried out in the plan's order. `Persist` is the only one that can
/// fail; where it does, the rest of the plan is dropped. The others hand
/// the message over and do not wait: a task is handed over at most once,
/// and nothing is promised about its delivery.
#[derive(Clone, Copy, Debug, PartialEq, Eq, Structural)]
pub enum Dispatch {
    /// Store the message.
    Persist,
    /// Broadcast the message on its channel.
    Publish,
    /// Record the message as the last of its channel.
    UpdateLastMessageId { is_dm: bool },
    /// Have the mentioned users' unread markers updated.
    QueueMentions { suppressed: bool },
    /// Have embeds made from the content.
    GenerateEmbeds,
    /// Have a push notification sent.
    PushNotification { target: PushTarget },
}

/// Who is pushed a message of `channel`.
pub open spec fn push_target(channel: Channel) -> PushTarget {
    match channel {
        Channel::DirectMessage { .. } => PushTarget::Recipients,
        Channel::Group { .. } => PushTarget::Recipients,
        Channel::TextChannel { .. } => PushTarget::Mentions,
        _ => PushTarget::Nobody,
    }
}

impl Message {
    /// Whether the message has content that is not empty.
    pub open spec fn has_text(&self) -> bool {
        self.content matches Some(text) && text@.len() > 0
    }

    /// Whether a push notification is due: notifications are not
    /// suppressed, and the message mentions a user, everyone or a role.
    pub open spec fn wants_push(&self) -> bool {
        !self.spec_has_suppressed_notifications() && (self.mentions is Some
            || self.spec_contains_mass_push_mention())
    }

    /// The plan of `send_without_notifications`.
    pub open spec fn quiet_plan(&self, is_dm: bool, generate_embeds: bool, mentions_elsewhere: bool) -> Seq<
        Dispatch,
    > {
        seq![Dispatch::Persist, Dispatch::Publish, Dispatch::UpdateLastMessageId { is_dm }] + (if
            !mentions_elsewhere && self.mentions is Some {
            seq![Dispatch::QueueMentions { suppressed: self.spec_has_suppressed_notifications() }]
        } else {
            seq![]
        }) + (if generate_embeds && self.has_text() {
            seq![Dispatch::GenerateEmbeds]
        } else {
            seq![]
        })
    }

    /// The plan of `send`.
    pub open spec fn send_plan(&self, channel: Channel, generate_embeds: bool) -> Seq<Dispatch> {
        self.quiet_plan(channel.is_direct_message(), generate_embeds, true) + (if self.wants_push() {
            seq![Dispatch::PushNotification { target: push_target(channel) }]
        } else {
            seq![]
        })
    }

    /// Plans the sending of a message without push notification: store,
    /// broadcast, record as last message; then the mentions, unless
    /// `mentions_elsewhere` says that the caller sees to them or there are
    /// none; then embed generation, if it is asked for and there is text.
    pub fn send_without_notifications(&self, is_dm: bool, generate_embeds: bool, mentions_elsewhere: bool) -> (r:
        Vec<Dispatch>)
        ensures
            r@ == self.quiet_plan(is_dm, generate_embeds, mentions_elsewhere),
    {
        let mut plan: Vec<Dispatch> = Vec::new();
        plan.push(Dispatch::Persist);
        plan.push(Dispatch::Publish);
        plan.push(Dispatch::UpdateLastMessageId { is_dm });
        if !mentions_elsewhere && self.mentions.is_some() {
            plan.push(Dispatch::QueueMentions { suppressed: self.has_suppressed_notifications() });
        }
        if generate_embeds {
            if let Some(content) = &self.content {
                if !content.as_str().is_empty() {
                    plan.push(Dispatch::GenerateEmbeds);
                }
            }
        }
        assert(plan@ =~= self.quiet_plan(is_dm, generate_embeds, mentions_elsewhere));
        plan
    }

    /// Plans the sending of a message: as without notifications, the
    /// mentions being left to the push notification, which comes last and
    /// only where one is due.
    pub fn send(&self, channel: &Channel, generate_embeds: bool) -> (r: Vec<Dispatch>)
        ensures
            r@ == self.send_plan(*channel, generate_embeds),
    {
        let is_dm = match channel {
            Channel::DirectMessage { .. } => true,
            _ => false,
        };
        let mut plan = self.send_without_notifications(is_dm, generate_embeds, true);
        if !self.has_suppressed_notifications() && (self.mentions.is_some()
            || self.contains_mass_push_mention()) {
            let target = match channel {
                Channel::DirectMessage { .. } | Channel::Group { .. } => PushTarget::Recipients,
                Channel::TextChannel { .. } => PushTarget::Mentions,
                _ => PushTarget::Nobody,
            };
            plan.push(Dispatch::PushNotification { target });
        }
        assert(plan@ =~= self.send_plan(*channel, generate_embeds));
        plan
    }
}

/// Every plan stores the message before anything else, and tells nobody
/// more than once.
pub proof fn lemma_plan_shape(m: Message, channel: Channel, generate_embeds: bool)
    ensures
        m.send_plan(channel, generate_embeds)[0] == Dispatch::Persist,
        m.send_plan(channel, generate_embeds).no_duplicates(),
        m.send_plan(channel, generate_embeds).len() <= 5,
{
}

/// A message with suppressed notifications is never pushed.
pub proof fn lemma_suppressed_is_not_pushed(m: Message, channel: Channel, generate_embeds: bool, target: PushTarget)
    requires
        m.spec_has_suppressed_notifications(),
    ensures
        !m.send_plan(channel, generate_embeds).contains(Dispatch::PushNotification { target }),
{
}

} // verus!
