//! Operations on stored messages: deletion, alone or in bulk, and the
//! users that a page of messages involves.

use crate::idlist::distinct;
use crate::idlist::lemma_distinct_append;
use crate::idlist::lemma_distinct_idempotent;
use crate::idlist::lemma_distinct_push;
use crate::idlist::insert_id;
use crate::model::Message;
use crate::model::SystemMessage;
use vstd::prelude::*;

verus! {

/// The ids of those of `messages` that belong to `channel`, in their order.
pub open spec fn ids_in_channel(messages: Seq<Message>, channel: Seq<char>) -> Seq<Seq<char>>
    decreases messages.len(),
{
    if messages.len() == 0 {
        Seq::empty()
    } else if messages.last().channel@ == channel {
        ids_in_channel(messages.drop_last(), channel).push(messages.last().id@)
    } else {
        ids_in_channel(messages.drop_last(), channel)
    }
}

/// The ids of the attachments of `m`, in their order.
pub open spec fn attachment_ids(m: Message) -> Seq<Seq<char>> {
    match m.attachments {
        Some(files) => Seq::new(files@.len(), |i: int| files@[i].id@),
        None => Seq::empty(),
    }
}

/// What deleting one message asks of the collaborators, in this order:
/// mark the attachments deleted (where there are any), delete the
/// message, broadcast the deletion on its channel.
#[derive(Clone, Debug, PartialEq, Eq)]
pub struct MessageDeletion {
    /// The attachments to mark deleted; absent where the message has none.
    pub attachments: Option<Vec<String>>,
    /// The message to delete.
    pub id: String,
    /// The channel to broadcast on.
    pub channel: String,
}

impl SystemMessage {
    /// The users that the event names: who acted, and on whom.
    pub open spec fn users(self) -> Seq<Seq<char>> {
        match self {
            SystemMessage::Text { .. } => seq![],
            SystemMessage::UserAdded { id, by } => seq![by@, id@],
            SystemMessage::UserRemove { id, by } => seq![by@, id@],
            SystemMessage::UserJoined { id } => seq![id@],
            SystemMessage::UserLeft { id } => seq![id@],
            SystemMessage::UserKicked { id } => seq![id@],
            SystemMessage::UserBanned { id } => seq![id@],
            SystemMessage::ChannelRenamed { by, .. } => seq![by@],
            SystemMessage::ChannelDescriptionChanged { by } => seq![by@],
            SystemMessage::ChannelIconChanged { by } => seq![by@],
            SystemMessage::ChannelOwnershipChanged { from, to } => seq![from@, to@],
            SystemMessage::MessagePinned { by, .. } => seq![by@],
            SystemMessage::MessageUnpinned { by, .. } => seq![by@],
        }
    }
}

/// The users that `m` involves: its author, then those its event names.
pub open spec fn involved_users(m: Message) -> Seq<Seq<char>> {
    match m.system {
        Some(system) => seq![m.author@] + system.users(),
        None => seq![m.author@],
    }
}

/// The users that `messages` involve, message by message, with repetitions.
pub open spec fn all_involved_users(messages: Seq<Message>) -> Seq<Seq<char>>
    decreases messages.len(),
{
    if messages.len() == 0 {
        Seq::empty()
    } else {
        all_involved_users(messages.drop_last()) + involved_users(messages.last())
    }
}

fn note_system_users(system: &SystemMessage, users: &mut Vec<String>)
    requires
        old(users).deep_view() == distinct(old(users).deep_view()),
    ensures
        final(users).deep_view() == distinct(old(users).deep_view() + system.users()),
{
    let ghost before = users.deep_view();
    match system {
        SystemMessage::Text { .. } => {
            assert(before + system.users() =~= before);
        },
        SystemMessage::UserAdded { id, by } | SystemMessage::UserRemove { id, by } => {
            insert_id(users, by.clone());
            insert_id(users, id.clone());
            proof {
                lemma_distinct_push(before, by@);
                lemma_distinct_push(before.push(by@), id@);
                assert(before + system.users() =~= before.push(by@).push(id@));
            }
        },
        SystemMessage::UserJoined { id }
        | SystemMessage::UserLeft { id }
        | SystemMessage::UserKicked { id }
        | SystemMessage::UserBanned { id } => {
            insert_id(users, id.clone());
            proof {
                lemma_distinct_push(before, id@);
                assert(before + system.users() =~= before.push(id@));
            }
        },
        SystemMessage::ChannelRenamed { by, .. }
        | SystemMessage::ChannelDescriptionChanged { by }
        | SystemMessage::ChannelIconChanged { by }
        | SystemMessage::MessagePinned { by, .. }
        | SystemMessage::MessageUnpinned { by, .. } => {
            insert_id(users, by.clone());
            proof {
                lemma_distinct_push(before, by@);
                assert(before + system.users() =~= before.push(by@));
            }
        },
        SystemMessage::ChannelOwnershipChanged { from, to } => {
            insert_id(users, from.clone());
            insert_id(users, to.clone());
            proof {
                lemma_distinct_push(before, from@);
                lemma_distinct_push(before.push(from@), to@);
                assert(before + system.users() =~= before.push(from@).push(to@));
            }
        },
    }
}

impl Message {
    /// Narrows a bulk deletion to one channel. `fetched` are the stored
    /// messages found for the ids that were asked for. The result holds the
    /// ids of those that belong to `channel`, in the order of `fetched`:
    /// a message of another channel is left out without an error.
    pub fn bulk_delete(channel: &str, fetched: &Vec<Message>) -> (r: Vec<String>)
        ensures
            r.deep_view() == ids_in_channel(fetched@, channel@),
    {
        let channel = channel.to_owned();
        let mut valid_ids: Vec<String> = Vec::new();
        let mut i: usize = 0;
        assert(valid_ids.deep_view() =~= ids_in_channel(fetched@.take(0), channel@));
        while i < fetched.len()
            invariant
                i <= fetched.len(),
                valid_ids.deep_view() == ids_in_channel(fetched@.take(i as int), channel@),
            decreases fetched.len() - i,
        {
            let ghost before = valid_ids.deep_view();
            assert(fetched@.take(i as int + 1).drop_last() =~= fetched@.take(i as int));
            if fetched[i].channel == channel {
                valid_ids.push(fetched[i].id.clone());
                assert(valid_ids.deep_view() =~= before.push(fetched[i as int].id@));
            }
            i = i + 1;
        }
        assert(fetched@.take(fetched.len() as int) =~= fetched@);
        valid_ids
    }

    /// What deleting this message asks of the collaborators.
    pub fn delete(&self) -> (r: MessageDeletion)
        ensures
            r.id == self.id,
            r.channel == self.channel,
            attachment_ids(*self).len() == 0 ==> r.attachments is None,
            attachment_ids(*self).len() > 0 ==> (r.attachments matches Some(ids) && ids.deep_view()
                == attachment_ids(*self)),
    {
        let mut file_ids: Vec<String> = Vec::new();
        if let Some(files) = &self.attachments {
            let mut i: usize = 0;
            while i < files.len()
                invariant
                    i <= files.len(),
                    file_ids@.len() == i,
                    forall|k: int| 0 <= k < i ==> file_ids@[k] == files@[k].id,
                decreases files.len() - i,
            {
                file_ids.push(files[i].id.clone());
                i = i + 1;
            }
            assert(file_ids.deep_view() =~= attachment_ids(*self));
        }
        let attachments = if file_ids.len() > 0 {
            Some(file_ids)
        } else {
            None
        };
        MessageDeletion { attachments, id: self.id.clone(), channel: self.channel.clone() }
    }

    /// The users to fetch along with a page of messages. Unless
    /// `include_users` is `Some(true)` none are wanted. Else every author
    /// and every user that a system event names comes back once, in the
    /// order of first appearance.
    pub fn fetch_with_users(messages: &Vec<Message>, include_users: Option<bool>) -> (r: Option<
        Vec<String>,
    >)
        ensures
            include_users == Some(true) ==> (r matches Some(ids) && ids.deep_view() == distinct(
                all_involved_users(messages@),
            )),
            include_users != Some(true) ==> r is None,
    {
        if let Some(true) = include_users {
            let mut users: Vec<String> = Vec::new();
            let mut i: usize = 0;
            assert(users.deep_view() =~= distinct(all_involved_users(messages@.take(0))));
            while i < messages.len()
                invariant
                    i <= messages.len(),
                    users.deep_view() == distinct(all_involved_users(messages@.take(i as int))),
                decreases messages.len() - i,
            {
                let ghost before = all_involved_users(messages@.take(i as int));
                assert(messages@.take(i as int + 1).drop_last() =~= messages@.take(i as int));
                insert_id(&mut users, messages[i].author.clone());
                proof {
                    lemma_distinct_idempotent(before);
                    lemma_distinct_push(before, messages[i as int].author@);
                    lemma_distinct_idempotent(before.push(messages[i as int].author@));
                }
                if let Some(system) = &messages[i].system {
                    note_system_users(system, &mut users);
                    proof {
                        lemma_distinct_append(before.push(messages[i as int].author@), system.users());
                        assert(before + involved_users(messages[i as int]) =~= before.push(
                            messages[i as int].author@,
                        ) + system.users());
                    }
                } else {
                    assert(before + involved_users(messages[i as int]) =~= before.push(
                        messages[i as int].author@,
                    ));
                }
                i = i + 1;
            }
            assert(messages@.take(messages.len() as int) =~= messages@);
            Some(users)
        } else {
            None
        }
    }
}

/// Every id that bulk deletion keeps is the id of a fetched message of
/// the channel, and every fetched message of the channel has its id kept.
pub proof fn lemma_bulk_delete_scoped(messages: Seq<Message>, channel: Seq<char>, id: Seq<char>)
    ensures
        ids_in_channel(messages, channel).contains(id) <==> exists|i: int|
            0 <= i < messages.len() && (#[trigger] messages[i]).channel@ == channel && messages[i].id@
                == id,
    decreases messages.len(),
{
    let kept = ids_in_channel(messages, channel);
    if messages.len() > 0 {
        let front = messages.drop_last();
        let before = ids_in_channel(front, channel);
        lemma_bulk_delete_scoped(front, channel, id);
        let last = messages.len() - 1;
        assert(messages[last] == messages.last());
        if kept.contains(id) {
            let k = choose|k: int| 0 <= k < kept.len() && kept[k] == id;
            if k < before.len() {
                assert(before[k] == id);
                let i = choose|i: int|
                    0 <= i < front.len() && (#[trigger] front[i]).channel@ == channel && front[i].id@
                        == id;
                assert(messages[i] == front[i]);
            } else {
                assert(messages[last].channel@ == channel && messages[last].id@ == id);
            }
        }
        if exists|i: int|
            0 <= i < messages.len() && (#[trigger] messages[i]).channel@ == channel && messages[i].id@
                == id {
            let i = choose|i: int|
                0 <= i < messages.len() && (#[trigger] messages[i]).channel@ == channel
                    && messages[i].id@ == id;
            if i < last {
                assert(front[i] == messages[i]);
                assert(before.contains(id));
                let k = choose|k: int| 0 <= k < before.len() && before[k] == id;
                assert(kept[k] == id);
            } else {
                assert(kept[kept.len() - 1] == id);
            }
        }
    }
}

} // verus!
