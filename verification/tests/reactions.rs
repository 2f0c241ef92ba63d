use indexmap::IndexMap;
use indexmap::IndexSet;
use message_pipeline::error::ChannelPermission;
use message_pipeline::error::Error;
use message_pipeline::error::PermissionValue;
use message_pipeline::model::Interactions;
use message_pipeline::model::Message;
use message_pipeline::reactions::ReactionChange;

fn set_of(items: &[&str]) -> IndexSet<String> {
    let mut set = IndexSet::new();
    for item in items {
        set.insert(item.to_string());
    }
    set
}

fn message_with(reactions: &[(&str, &[&str])]) -> Message {
    let mut message = Message::default();
    message.id = "01D39ZY06FGSCTVN4T2V9PKHFZ".to_string();
    message.channel = "01D39ZY06FGSCTVN4T2V9PKHFA".to_string();
    let mut table = IndexMap::new();
    for (emoji, users) in reactions {
        table.insert(emoji.to_string(), set_of(users));
    }
    message.reactions = table;
    message
}

fn persist(message: &mut Message, change: &ReactionChange) {
    match change {
        ReactionChange::React { user_id, emoji_id, .. } => {
            message.reactions.entry(emoji_id.clone()).or_default().insert(user_id.clone());
        }
        ReactionChange::Unreact { user_id, emoji_id, .. } => {
            if let Some(users) = message.reactions.get_mut(emoji_id) {
                users.shift_remove(user_id);
            }
        }
        ReactionChange::RemoveReaction { emoji_id, .. } => {
            message.reactions.shift_remove(emoji_id);
        }
    }
}

fn all_permissions() -> PermissionValue {
    PermissionValue { view_channel: true, react: true, mention_everyone: true, mention_roles: true }
}

#[test]
fn new_emoji_is_refused_at_the_limit() {
    let message = message_with(&[("a", &["u1"]), ("b", &["u1"])]);
    assert_eq!(message.can_add_reaction("c", 2), Err(Error::InvalidOperation));
    assert_eq!(message.can_add_reaction("c", 1), Err(Error::InvalidOperation));
    assert_eq!(message.can_add_reaction("c", 3), Ok(()));
    assert_eq!(message.add_reaction("u2", "c", 2, Ok(true)), Err(Error::InvalidOperation));
}

#[test]
fn existing_emoji_is_accepted_at_the_limit() {
    let message = message_with(&[("a", &["u1"]), ("b", &["u1"])]);
    assert_eq!(message.can_add_reaction("a", 2), Ok(()));
    assert_eq!(message.can_add_reaction("b", 0), Ok(()));
    assert_eq!(
        message.add_reaction("u2", "a", 2, Ok(true)),
        Ok(ReactionChange::React {
            id: "01D39ZY06FGSCTVN4T2V9PKHFZ".to_string(),
            channel_id: "01D39ZY06FGSCTVN4T2V9PKHFA".to_string(),
            user_id: "u2".to_string(),
            emoji_id: "a".to_string(),
        })
    );
}

#[test]
fn emoji_outside_a_restricted_list_is_refused() {
    let mut message = message_with(&[]);
    message.interactions =
        Interactions { reactions: Some(set_of(&["a", "b"])), restrict_reactions: true };
    assert_eq!(message.can_add_reaction("c", 20), Err(Error::InvalidOperation));
    assert_eq!(message.can_add_reaction("a", 20), Ok(()));
    message.interactions.restrict_reactions = false;
    assert_eq!(message.can_add_reaction("c", 20), Ok(()));
}

#[test]
fn unusable_emoji_is_refused_and_lookup_failure_handed_on() {
    let message = message_with(&[]);
    assert_eq!(message.add_reaction("u1", "a", 20, Ok(false)), Err(Error::InvalidOperation));
    assert_eq!(message.add_reaction("u1", "a", 20, Err(Error::NotFound)), Err(Error::NotFound));
    assert_eq!(
        message.add_reaction("u1", "a", 20, Err(Error::InternalError)),
        Err(Error::InternalError)
    );
}

#[test]
fn removing_the_last_reactor_removes_the_emoji() {
    let mut message = message_with(&[("a", &["u1"]), ("b", &["u1", "u2"])]);
    let change = message.remove_reaction("u1", "a").unwrap();
    assert_eq!(
        change,
        ReactionChange::RemoveReaction {
            id: "01D39ZY06FGSCTVN4T2V9PKHFZ".to_string(),
            channel_id: "01D39ZY06FGSCTVN4T2V9PKHFA".to_string(),
            emoji_id: "a".to_string(),
        }
    );
    persist(&mut message, &change);
    assert!(!message.reactions.contains_key("a"));
    assert_eq!(message.remove_reaction("u1", "a"), Err(Error::NotFound));
}

#[test]
fn removing_one_of_several_reactors_keeps_the_emoji() {
    let mut message = message_with(&[("b", &["u1", "u2"])]);
    let change = message.remove_reaction("u2", "b").unwrap();
    assert_eq!(
        change,
        ReactionChange::Unreact {
            id: "01D39ZY06FGSCTVN4T2V9PKHFZ".to_string(),
            channel_id: "01D39ZY06FGSCTVN4T2V9PKHFA".to_string(),
            user_id: "u2".to_string(),
            emoji_id: "b".to_string(),
        }
    );
    persist(&mut message, &change);
    assert!(message.reactions.contains_key("b"));
    assert_eq!(message.remove_reaction("u2", "b"), Err(Error::NotFound));
    assert!(message.remove_reaction("u1", "b").is_ok());
}

#[test]
fn removing_a_reaction_that_is_not_there() {
    let message = message_with(&[("a", &["u1"])]);
    assert_eq!(message.remove_reaction("u2", "a"), Err(Error::NotFound));
    assert_eq!(message.remove_reaction("u1", "b"), Err(Error::NotFound));
}

#[test]
fn clearing_needs_no_reaction() {
    let message = message_with(&[]);
    assert_eq!(
        message.clear_reaction("a"),
        ReactionChange::RemoveReaction {
            id: "01D39ZY06FGSCTVN4T2V9PKHFZ".to_string(),
            channel_id: "01D39ZY06FGSCTVN4T2V9PKHFA".to_string(),
            emoji_id: "a".to_string(),
        }
    );
}

#[test]
fn added_reaction_is_found_again() {
    let mut message = message_with(&[]);
    let change = message.add_reaction("u1", "a", 1, Ok(true)).unwrap();
    persist(&mut message, &change);
    assert_eq!(message.can_add_reaction("b", 1), Err(Error::InvalidOperation));
    assert_eq!(message.can_add_reaction("a", 1), Ok(()));
    assert!(message.remove_reaction("u1", "a").is_ok());
}

#[test]
fn policy_can_use() {
    let open = Interactions { reactions: Some(set_of(&["a"])), restrict_reactions: false };
    assert!(open.can_use("a"));
    assert!(open.can_use("z"));
    let closed = Interactions { reactions: Some(set_of(&["a"])), restrict_reactions: true };
    assert!(closed.can_use("a"));
    assert!(!closed.can_use("z"));
    let nothing = Interactions { reactions: None, restrict_reactions: true };
    assert!(!nothing.can_use("a"));
}

#[test]
fn policy_is_default() {
    assert!(Interactions::default().is_default());
    assert!(Interactions { reactions: None, restrict_reactions: false }.is_default());
    assert!(!Interactions { reactions: None, restrict_reactions: true }.is_default());
    assert!(!Interactions { reactions: Some(set_of(&[])), restrict_reactions: false }.is_default());
}

#[test]
fn policy_restriction_needs_a_list() {
    assert_eq!(
        Interactions { reactions: None, restrict_reactions: true }.check_restriction(),
        Err(Error::InvalidProperty)
    );
    assert_eq!(
        Interactions { reactions: Some(set_of(&[])), restrict_reactions: true }.check_restriction(),
        Err(Error::InvalidProperty)
    );
    assert_eq!(
        Interactions { reactions: Some(set_of(&["a"])), restrict_reactions: true }
            .check_restriction(),
        Ok(())
    );
    assert_eq!(
        Interactions { reactions: None, restrict_reactions: false }.check_restriction(),
        Ok(())
    );
}

#[test]
fn policy_validate() {
    let none = Interactions { reactions: None, restrict_reactions: false };
    let mut lacking = all_permissions();
    lacking.react = false;
    assert_eq!(none.validate(&lacking, 0), Ok(vec![]));
    let some = Interactions { reactions: Some(set_of(&["b", "a", "c"])), restrict_reactions: false };
    assert_eq!(
        some.validate(&lacking, 20),
        Err(Error::MissingPermission { permission: ChannelPermission::React })
    );
    assert_eq!(some.validate(&all_permissions(), 2), Err(Error::InvalidOperation));
    assert_eq!(
        some.validate(&all_permissions(), 3),
        Ok(vec!["b".to_string(), "a".to_string(), "c".to_string()])
    );
}

#[test]
fn policy_emoji_checked() {
    assert_eq!(Interactions::emoji_checked(Ok(true)), Ok(()));
    assert_eq!(Interactions::emoji_checked(Ok(false)), Err(Error::InvalidOperation));
    assert_eq!(Interactions::emoji_checked(Err(Error::NotFound)), Err(Error::NotFound));
}

#[test]
fn permission_names_and_checks() {
    assert_eq!(ChannelPermission::MentionEveryone.name(), "MentionEveryone");
    assert_eq!(ChannelPermission::MentionRoles.name(), "MentionRoles");
    assert_eq!(ChannelPermission::React.name(), "React");
    assert_eq!(ChannelPermission::ViewChannel.name(), "ViewChannel");
    let mut permissions = all_permissions();
    permissions.mention_roles = false;
    assert!(permissions.has_channel_permission(ChannelPermission::MentionEveryone));
    assert!(!permissions.has_channel_permission(ChannelPermission::MentionRoles));
    assert_eq!(
        permissions.throw_if_lacking_channel_permission(ChannelPermission::MentionRoles),
        Err(Error::MissingPermission { permission: ChannelPermission::MentionRoles })
    );
    assert_eq!(permissions.throw_if_lacking_channel_permission(ChannelPermission::React), Ok(()));
}
