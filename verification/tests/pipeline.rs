use indexmap::IndexSet;
use message_pipeline::binder::AttachmentRequest;
use message_pipeline::error::ChannelPermission;
use message_pipeline::error::Error;
use message_pipeline::error::PermissionValue;
use message_pipeline::fanout::Dispatch;
use message_pipeline::fanout::PushTarget;
use message_pipeline::idempotency::IdempotencyGuard;
use message_pipeline::model::Embed;
use message_pipeline::model::File;
use message_pipeline::model::Interactions;
use message_pipeline::model::Masquerade;
use message_pipeline::model::Message;
use message_pipeline::model::MessageWebhook;
use message_pipeline::model::SendableEmbed;
use message_pipeline::pipeline::Outbox;
use message_pipeline::pipeline::Pipeline;
use message_pipeline::pipeline::ReplyTarget;
use message_pipeline::pipeline::Request;
use message_pipeline::pipeline::Response;
use message_pipeline::pipeline::Stage;
use message_pipeline::pipeline::Step;
use message_pipeline::pipeline::Submission;
use message_pipeline::request::Channel;
use message_pipeline::request::Config;
use message_pipeline::request::DataMessageSend;
use message_pipeline::request::FeaturesLimits;
use message_pipeline::request::MessageAuthor;
use message_pipeline::request::ReplyIntent;
use message_pipeline::request::User;

const A: &str = "01D39ZY06FGSCTVN4T2V9PKHFA";
const B: &str = "01D39ZY06FGSCTVN4T2V9PKHFB";
const C: &str = "01D39ZY06FGSCTVN4T2V9PKHFC";
const MSG: &str = "01D39ZY06FGSCTVN4T2V9PKHFM";
const KEY: &str = "01D39ZY06FGSCTVN4T2V9PKHFK";

fn s(t: &str) -> String {
    t.to_string()
}

fn ids(items: &[&str]) -> Vec<String> {
    items.iter().map(|i| i.to_string()).collect()
}

fn seen_by(answers: &[(&str, bool)]) -> Vec<(String, bool)> {
    answers.iter().map(|(id, sees)| (id.to_string(), *sees)).collect()
}

fn config() -> Config {
    Config { mass_mentions_enabled: true, message_replies: 2, message_embeds: 2, message_reactions: 20 }
}

fn limits() -> FeaturesLimits {
    FeaturesLimits { message_length: 2000, message_attachments: 2 }
}

fn text_channel() -> Channel {
    Channel::TextChannel { id: s("chan"), server: s("serv") }
}

fn human() -> User {
    User { id: s("user"), bot: false }
}

fn data(content: Option<&str>) -> DataMessageSend {
    DataMessageSend {
        nonce: None,
        content: content.map(s),
        attachments: None,
        replies: None,
        embeds: None,
        masquerade: None,
        interactions: None,
        flags: None,
    }
}

fn by_user(channel: Channel, data: DataMessageSend) -> Submission {
    Submission {
        channel,
        data,
        author: MessageAuthor::User(human()),
        user: Some(human()),
        limits: limits(),
        config: config(),
        generate_embeds: false,
        allow_mentions: true,
    }
}

fn by_bot(channel: Channel, data: DataMessageSend) -> Submission {
    let bot = User { id: s("bot"), bot: true };
    Submission {
        author: MessageAuthor::User(bot.clone()),
        user: Some(bot),
        ..by_user(channel, data)
    }
}

fn by_webhook(channel: Channel, data: DataMessageSend) -> Submission {
    Submission {
        author: MessageAuthor::Webhook { id: s("hook"), name: s("Hook"), avatar: Some(s("pic")) },
        user: None,
        ..by_user(channel, data)
    }
}

fn start(submission: Submission) -> Step {
    let mut guard = IdempotencyGuard::new(8);
    Message::create_with_ids(&mut guard, submission, s(MSG), s(KEY))
}

fn all_permissions() -> PermissionValue {
    PermissionValue { view_channel: true, react: true, mention_everyone: true, mention_roles: true }
}

fn file(id: &str) -> File {
    File { id: s(id), filename: s("a.png"), content_type: s("image/png"), size: 12 }
}

fn embed(media: Option<&str>) -> SendableEmbed {
    SendableEmbed {
        icon_url: None,
        url: Some(s("https://example.com")),
        title: Some(s("title")),
        description: Some(s("words")),
        media: media.map(s),
        colour: None,
    }
}

fn failure(step: Step) -> Error {
    match step {
        Step::Done(Err(e)) => e,
        other => panic!("expected a failure, got {:?}", other),
    }
}

fn outbox(step: Step) -> Outbox {
    match step {
        Step::Done(Ok(outbox)) => outbox,
        other => panic!("expected a message, got {:?}", other),
    }
}

fn asked(step: Step) -> (Pipeline, Request) {
    match step {
        Step::Ask(pipeline, request) => (pipeline, request),
        other => panic!("expected a request, got {:?}", other),
    }
}

#[test]
fn empty_payload_is_refused() {
    assert_eq!(failure(start(by_user(text_channel(), data(Some(""))))), Error::EmptyMessage);
    assert_eq!(failure(start(by_user(text_channel(), data(None)))), Error::EmptyMessage);
    let mut lists = data(Some(""));
    lists.attachments = Some(vec![]);
    lists.embeds = Some(vec![]);
    assert_eq!(failure(start(by_user(text_channel(), lists))), Error::EmptyMessage);
}

#[test]
fn raw_flags_of_eight_are_refused() {
    let mut d = data(Some("hello"));
    d.flags = Some(8);
    assert_eq!(failure(start(by_user(text_channel(), d))), Error::InvalidProperty);
}

#[test]
fn raw_flags_above_seven_are_refused_with_any_low_bits() {
    for high in [8u32, 16, 1 << 20, 1 << 31] {
        for low in 0u32..8 {
            for allow in [false, true] {
                let mut d = data(Some("hello"));
                d.flags = Some(high | low);
                let mut submission = by_bot(text_channel(), d);
                submission.allow_mentions = allow;
                assert_eq!(failure(start(submission)), Error::InvalidProperty);
            }
        }
    }
}

#[test]
fn mention_flags_take_a_bot() {
    for raw in [2u32, 3, 4, 5, 6, 7] {
        let mut d = data(Some("hello"));
        d.flags = Some(raw);
        assert_eq!(failure(start(by_user(text_channel(), d))), Error::IsNotBot);
    }
}

#[test]
fn both_mention_flags_are_refused() {
    for raw in [6u32, 7] {
        let mut d = data(Some("hello"));
        d.flags = Some(raw);
        assert_eq!(failure(start(by_bot(text_channel(), d.clone()))), Error::InvalidFlagValue);
        assert_eq!(failure(start(by_webhook(text_channel(), d))), Error::InvalidFlagValue);
    }
}

#[test]
fn mention_flags_are_dropped_where_mentions_are_not_allowed() {
    let mut d = data(Some("hello"));
    d.flags = Some(7);
    let mut submission = by_user(text_channel(), d);
    submission.allow_mentions = false;
    let made = outbox(start(submission));
    assert_eq!(made.message.flags, Some(1));
}

#[test]
fn no_made_message_mentions_everyone_and_online_by_flags() {
    for raw in 0u32..8 {
        for allow in [false, true] {
            let mut d = data(Some("hello"));
            d.flags = Some(raw);
            let mut submission = by_webhook(text_channel(), d);
            submission.allow_mentions = allow;
            match start(submission) {
                Step::Done(Ok(made)) => {
                    let flags = made.message.flags.unwrap();
                    assert!(flags <= 7);
                    assert!(!(flags & 2 == 2 && flags & 4 == 4));
                    assert_eq!(flags & 1, raw & 1);
                    if allow {
                        assert_eq!(flags, raw);
                    } else {
                        assert_eq!(flags, raw & 1);
                    }
                }
                Step::Done(Err(e)) => {
                    assert_eq!(e, Error::InvalidFlagValue);
                    assert!(allow && raw & 6 == 6);
                }
                other => panic!("unexpected {:?}", other),
            }
        }
    }
}

#[test]
fn restriction_without_a_list_is_refused() {
    let mut empty = IndexSet::new();
    empty.insert(s("x"));
    empty.clear();
    for reactions in [None, Some(empty)] {
        for flags in [None, Some(0u32), Some(1)] {
            for content in ["hello", "hello @everyone"] {
                let mut d = data(Some(content));
                d.flags = flags;
                d.interactions = Some(Interactions { reactions: reactions.clone(), restrict_reactions: true });
                assert_eq!(failure(start(by_user(text_channel(), d.clone()))), Error::InvalidProperty);
                assert_eq!(failure(start(by_webhook(text_channel(), d))), Error::InvalidProperty);
            }
        }
    }
}

#[test]
fn restriction_with_a_list_is_kept() {
    let mut list = IndexSet::new();
    list.insert(s("a"));
    let policy = Interactions { reactions: Some(list), restrict_reactions: true };
    let mut d = data(Some("hello"));
    d.interactions = Some(policy.clone());
    let made = outbox(start(by_user(text_channel(), d)));
    assert_eq!(made.message.interactions, policy);
}

#[test]
fn payload_too_large_comes_first_and_leaves_the_nonce() {
    let mut guard = IdempotencyGuard::new(8);
    let mut d = data(Some("hello"));
    d.nonce = Some(s("n1"));
    d.flags = Some(8);
    let mut submission = by_user(text_channel(), d);
    submission.limits.message_length = 4;
    let step = Message::create_with_ids(&mut guard, submission, s(MSG), s(KEY));
    assert_eq!(failure(step), Error::PayloadTooLarge);
    assert!(!guard.has_seen(&s("n1")));
}

#[test]
fn everyone_without_the_capability_is_refused() {
    let step = start(by_user(text_channel(), data(Some("hello @everyone"))));
    let (pipeline, request) = asked(step);
    assert_eq!(request, Request::ChannelPermissions { user: s("user") });
    assert_eq!(pipeline.stage(), Stage::Permissions);
    let mut permissions = all_permissions();
    permissions.mention_everyone = false;
    assert_eq!(
        failure(pipeline.advance(Response::Permissions(permissions))),
        Error::MissingPermission { permission: ChannelPermission::MentionEveryone }
    );
}

#[test]
fn everyone_with_the_capability_is_sent() {
    let step = start(by_user(text_channel(), data(Some("hello @everyone"))));
    let (pipeline, _) = asked(step);
    let made = outbox(pipeline.advance(Response::Permissions(all_permissions())));
    assert_eq!(made.message.flags, Some(2));
    assert_eq!(made.message.content, Some(s("hello @everyone")));
    assert_eq!(made.message.mentions, None);
    assert_eq!(
        made.dispatches,
        vec![
            Dispatch::Persist,
            Dispatch::Publish,
            Dispatch::UpdateLastMessageId { is_dm: false },
            Dispatch::PushNotification { target: PushTarget::Mentions },
        ]
    );
}

#[test]
fn mass_mentions_are_dropped_where_the_feature_is_off() {
    let text = format!("@everyone @online <%{}> <@{}>", A, B);
    let mut submission = by_user(text_channel(), data(Some(&text)));
    submission.config.mass_mentions_enabled = false;
    let (pipeline, request) = asked(start(submission));
    assert_eq!(request, Request::FetchMembers { server: s("serv"), users: ids(&[B]) });
    let (pipeline, request) = asked(pipeline.advance(Response::Members(Ok(ids(&[B])))));
    assert_eq!(request, Request::MembersCanSeeChannel { server: s("serv"), members: ids(&[B]) });
    let made = outbox(pipeline.advance(Response::Visibility(seen_by(&[(B, true)]))));
    assert_eq!(made.message.flags, Some(0));
    assert_eq!(made.message.role_mentions, None);
    assert_eq!(made.message.mentions, Some(ids(&[B])));
}

#[test]
fn the_system_may_not_mass_mention() {
    let mut submission = by_user(text_channel(), data(Some("@online")));
    submission.author = MessageAuthor::System { username: s("sys"), avatar: None };
    submission.user = None;
    assert_eq!(failure(start(submission)), Error::InvalidProperty);
}

#[test]
fn a_webhook_mass_mentions_without_permissions() {
    let made = outbox(start(by_webhook(text_channel(), data(Some("@online")))));
    assert_eq!(made.message.flags, Some(4));
    assert_eq!(made.message.author, "hook");
    assert_eq!(made.message.webhook, Some(MessageWebhook { name: s("Hook"), avatar: Some(s("pic")) }));
}

#[test]
fn roles_are_narrowed_to_the_roles_of_the_server() {
    let text = format!("<%{}> <%{}> <%{}>", A, B, C);
    let (pipeline, request) = asked(start(by_user(text_channel(), data(Some(&text)))));
    assert_eq!(request, Request::FetchServerRoles { server: s("serv") });
    assert_eq!(pipeline.stage(), Stage::Roles);
    let (pipeline, request) = asked(pipeline.advance(Response::ServerRoles(ids(&[C, A, "other"]))));
    assert_eq!(request, Request::ChannelPermissions { user: s("user") });
    let mut permissions = all_permissions();
    permissions.mention_everyone = false;
    let made = outbox(pipeline.advance(Response::Permissions(permissions)));
    assert_eq!(made.message.role_mentions, Some(ids(&[A, C])));
    assert_eq!(made.message.flags, Some(0));
    assert!(made.dispatches.contains(&Dispatch::PushNotification { target: PushTarget::Mentions }));
}

#[test]
fn roles_need_the_capability() {
    let text = format!("<%{}>", A);
    let (pipeline, _) = asked(start(by_user(text_channel(), data(Some(&text)))));
    let (pipeline, _) = asked(pipeline.advance(Response::ServerRoles(ids(&[A]))));
    let mut permissions = all_permissions();
    permissions.mention_roles = false;
    assert_eq!(
        failure(pipeline.advance(Response::Permissions(permissions))),
        Error::MissingPermission { permission: ChannelPermission::MentionRoles }
    );
}

#[test]
fn unknown_roles_are_dropped_without_an_error() {
    let text = format!("hello <%{}>", A);
    let (pipeline, _) = asked(start(by_user(text_channel(), data(Some(&text)))));
    let made = outbox(pipeline.advance(Response::ServerRoles(vec![])));
    assert_eq!(made.message.role_mentions, None);
}

#[test]
fn roles_are_not_looked_up_where_mentions_are_not_allowed() {
    let text = format!("<%{}>", A);
    let mut submission = by_user(text_channel(), data(Some(&text)));
    submission.allow_mentions = false;
    let (_, request) = asked(start(submission));
    assert_eq!(request, Request::ChannelPermissions { user: s("user") });
}

#[test]
fn too_many_replies_resolve_none() {
    let mut d = data(Some("hello"));
    d.replies = Some(vec![
        ReplyIntent { id: s("r1"), mention: true, fail_if_not_exists: None },
        ReplyIntent { id: s("r2"), mention: true, fail_if_not_exists: None },
        ReplyIntent { id: s("r3"), mention: true, fail_if_not_exists: None },
    ]);
    assert_eq!(failure(start(by_user(text_channel(), d))), Error::TooManyReplies { max: 2 });
}

#[test]
fn replies_are_linked_and_authors_mentioned() {
    let mut d = data(Some("hello"));
    d.replies = Some(vec![
        ReplyIntent { id: s("r1"), mention: true, fail_if_not_exists: None },
        ReplyIntent { id: s("r2"), mention: false, fail_if_not_exists: Some(true) },
    ]);
    let (pipeline, request) = asked(start(by_user(text_channel(), d)));
    assert_eq!(request, Request::FetchMessage { id: s("r1") });
    assert_eq!(pipeline.stage(), Stage::Reply(0));
    let (pipeline, request) = asked(pipeline.advance(Response::Message(Ok(ReplyTarget { id: s("r1"), author: s(A) }))));
    assert_eq!(request, Request::FetchMessage { id: s("r2") });
    let (pipeline, request) = asked(pipeline.advance(Response::Message(Ok(ReplyTarget { id: s("r2"), author: s(B) }))));
    assert_eq!(request, Request::FetchMembers { server: s("serv"), users: ids(&[A]) });
    let (pipeline, _) = asked(pipeline.advance(Response::Members(Ok(ids(&[A])))));
    let made = outbox(pipeline.advance(Response::Visibility(seen_by(&[(A, true)]))));
    assert_eq!(made.message.replies, Some(ids(&["r1", "r2"])));
    assert_eq!(made.message.mentions, Some(ids(&[A])));
}

#[test]
fn reply_authors_are_not_mentioned_where_mentions_are_not_allowed() {
    let mut d = data(Some("hello"));
    d.replies = Some(vec![ReplyIntent { id: s("r1"), mention: true, fail_if_not_exists: None }]);
    let mut submission = by_user(text_channel(), d);
    submission.allow_mentions = false;
    let (pipeline, _) = asked(start(submission));
    let made = outbox(pipeline.advance(Response::Message(Ok(ReplyTarget { id: s("r1"), author: s(A) }))));
    assert_eq!(made.message.replies, Some(ids(&["r1"])));
    assert_eq!(made.message.mentions, None);
}

#[test]
fn a_missing_reply_target_fails_unless_the_intent_is_lenient() {
    for (strictness, fails) in [(None, true), (Some(true), true), (Some(false), false)] {
        let mut d = data(Some("hello"));
        d.replies = Some(vec![ReplyIntent { id: s("r1"), mention: true, fail_if_not_exists: strictness }]);
        let (pipeline, _) = asked(start(by_user(text_channel(), d)));
        let step = pipeline.advance(Response::Message(Err(Error::NotFound)));
        if fails {
            assert_eq!(failure(step), Error::NotFound);
        } else {
            let made = outbox(step);
            assert_eq!(made.message.replies, None);
        }
    }
}

#[test]
fn another_lookup_failure_always_fails() {
    let mut d = data(Some("hello"));
    d.replies = Some(vec![ReplyIntent { id: s("r1"), mention: true, fail_if_not_exists: Some(false) }]);
    let (pipeline, _) = asked(start(by_user(text_channel(), d)));
    assert_eq!(failure(pipeline.advance(Response::Message(Err(Error::InternalError)))), Error::InternalError);
}

#[test]
fn the_same_target_is_replied_to_once() {
    let mut d = data(Some("hello"));
    d.replies = Some(vec![
        ReplyIntent { id: s("r1"), mention: false, fail_if_not_exists: None },
        ReplyIntent { id: s("r1"), mention: false, fail_if_not_exists: None },
    ]);
    let (pipeline, _) = asked(start(by_user(text_channel(), d)));
    let (pipeline, _) = asked(pipeline.advance(Response::Message(Ok(ReplyTarget { id: s("r1"), author: s(A) }))));
    let made = outbox(pipeline.advance(Response::Message(Ok(ReplyTarget { id: s("r1"), author: s(A) }))));
    assert_eq!(made.message.replies, Some(ids(&["r1"])));
}

#[test]
fn mentions_between_people_are_narrowed_to_recipients() {
    let text = format!("<@{}> <@{}> <%{}>", A, B, C);
    for channel in [
        Channel::DirectMessage { id: s("dm"), recipients: ids(&[B, "user"]) },
        Channel::Group { id: s("dm"), recipients: ids(&[B, "user"]) },
    ] {
        let made = outbox(start(by_webhook(channel.clone(), data(Some(&text)))));
        assert_eq!(made.message.mentions, Some(ids(&[B])));
        assert_eq!(made.message.role_mentions, None);
        assert_eq!(made.message.channel, "dm");
        let is_dm = matches!(channel, Channel::DirectMessage { .. });
        assert_eq!(
            made.dispatches,
            vec![
                Dispatch::Persist,
                Dispatch::Publish,
                Dispatch::UpdateLastMessageId { is_dm },
                Dispatch::PushNotification { target: PushTarget::Recipients },
            ]
        );
    }
}

#[test]
fn roles_mean_nothing_between_people() {
    let text = format!("<%{}>", C);
    let channel = Channel::Group { id: s("grp"), recipients: ids(&[B]) };
    let made = outbox(start(by_webhook(channel, data(Some(&text)))));
    assert_eq!(made.message.role_mentions, None);
    assert_eq!(made.message.mentions, None);
}

#[test]
fn notes_to_self_mention_nobody() {
    let text = format!("<@{}>", A);
    let channel = Channel::SavedMessages { id: s("saved"), user: s("user") };
    let made = outbox(start(by_user(channel, data(Some(&text)))));
    assert_eq!(made.message.mentions, None);
    assert_eq!(
        made.dispatches,
        vec![Dispatch::Persist, Dispatch::Publish, Dispatch::UpdateLastMessageId { is_dm: false }]
    );
}

#[test]
fn mentions_on_a_server_are_narrowed_twice() {
    let text = format!("<@{}> <@{}> <@{}>", A, B, C);
    let (pipeline, request) = asked(start(by_user(text_channel(), data(Some(&text)))));
    assert_eq!(request, Request::FetchMembers { server: s("serv"), users: ids(&[A, B, C]) });
    let (pipeline, request) = asked(pipeline.advance(Response::Members(Ok(ids(&[C, A])))));
    assert_eq!(request, Request::MembersCanSeeChannel { server: s("serv"), members: ids(&[C, A]) });
    assert_eq!(pipeline.mentions().user_mentions, ids(&[A, C]));
    let made = outbox(pipeline.advance(Response::Visibility(seen_by(&[(A, false), (C, true), (B, true)]))));
    assert_eq!(made.message.mentions, Some(ids(&[C])));
}

#[test]
fn no_member_left_skips_the_visibility_lookup() {
    let text = format!("<@{}>", A);
    let (pipeline, _) = asked(start(by_user(text_channel(), data(Some(&text)))));
    let made = outbox(pipeline.advance(Response::Members(Ok(vec![]))));
    assert_eq!(made.message.mentions, None);
}

#[test]
fn a_failed_member_lookup_is_an_internal_error() {
    let text = format!("<@{}>", A);
    let (pipeline, _) = asked(start(by_user(text_channel(), data(Some(&text)))));
    assert_eq!(failure(pipeline.advance(Response::Members(Err(Error::NotFound)))), Error::InternalError);
}

#[test]
fn too_many_attachments_and_embeds() {
    let mut d = data(Some("hello"));
    d.attachments = Some(ids(&["f1", "f2", "f3"]));
    d.embeds = Some(vec![embed(None), embed(None), embed(None)]);
    assert_eq!(failure(start(by_user(text_channel(), d.clone()))), Error::TooManyAttachments { max: 2 });
    d.attachments = Some(ids(&["f1", "f2"]));
    assert_eq!(failure(start(by_user(text_channel(), d))), Error::TooManyEmbeds { max: 2 });
}

#[test]
fn attachments_and_embeds_are_bound_in_order() {
    let mut d = data(None);
    d.attachments = Some(ids(&["f1", "f2"]));
    d.embeds = Some(vec![embed(Some("f3")), embed(None)]);
    d.masquerade = Some(Masquerade { name: Some(s("mask")), avatar: None, colour: None });
    let (pipeline, request) = asked(start(by_user(text_channel(), d)));
    let bind = |id: &str| {
        Request::UseAttachment(AttachmentRequest { id: s(id), message_id: s(MSG), author_id: s("user") })
    };
    assert_eq!(request, bind("f1"));
    assert_eq!(pipeline.stage(), Stage::Attachment(0));
    let (pipeline, request) = asked(pipeline.advance(Response::Attachment(Ok(file("f1")))));
    assert_eq!(request, bind("f2"));
    let (pipeline, request) = asked(pipeline.advance(Response::Attachment(Ok(file("f2")))));
    assert_eq!(request, Request::ValidateEmbed { index: 0 });
    let (pipeline, request) = asked(pipeline.advance(Response::Validation(Ok(()))));
    assert_eq!(request, bind("f3"));
    assert_eq!(pipeline.stage(), Stage::Media(0));
    let (pipeline, request) = asked(pipeline.advance(Response::Attachment(Ok(file("f3")))));
    assert_eq!(request, Request::ValidateEmbed { index: 1 });
    let made = outbox(pipeline.advance(Response::Validation(Ok(()))));
    let m = made.message;
    assert_eq!(m.id, MSG);
    assert_eq!(m.nonce, Some(s(KEY)));
    assert_eq!(m.channel, "chan");
    assert_eq!(m.author, "user");
    assert_eq!(m.webhook, None);
    assert_eq!(m.content, None);
    assert_eq!(m.attachments, Some(vec![file("f1"), file("f2")]));
    assert_eq!(m.masquerade, Some(Masquerade { name: Some(s("mask")), avatar: None, colour: None }));
    assert_eq!(m.flags, Some(0));
    assert!(m.reactions.is_empty());
    assert!(m.interactions.is_default());
    let embeds = m.embeds.unwrap();
    assert_eq!(embeds.len(), 2);
    match &embeds[0] {
        Embed::Text(text) => {
            assert_eq!(text.media, Some(file("f3")));
            assert_eq!(text.description, Some(s("words")));
        }
    }
    match &embeds[1] {
        Embed::Text(text) => assert_eq!(text.media, None),
    }
}

#[test]
fn a_failed_binding_is_handed_on() {
    let mut d = data(None);
    d.attachments = Some(ids(&["f1"]));
    let (pipeline, _) = asked(start(by_user(text_channel(), d)));
    assert_eq!(failure(pipeline.advance(Response::Attachment(Err(Error::NotFound)))), Error::NotFound);
    let mut d = data(None);
    d.embeds = Some(vec![embed(Some("f3"))]);
    let (pipeline, _) = asked(start(by_user(text_channel(), d)));
    let (pipeline, _) = asked(pipeline.advance(Response::Validation(Ok(()))));
    assert_eq!(failure(pipeline.advance(Response::Attachment(Err(Error::InvalidOperation)))), Error::InvalidOperation);
}

#[test]
fn an_invalid_embed_fails_before_its_media_is_bound() {
    let mut d = data(None);
    d.embeds = Some(vec![embed(Some("f3"))]);
    let (pipeline, request) = asked(start(by_user(text_channel(), d)));
    assert_eq!(request, Request::ValidateEmbed { index: 0 });
    assert_eq!(
        failure(pipeline.advance(Response::Validation(Err(s("url: invalid"))))),
        Error::FailedValidation { error: s("url: invalid") }
    );
}

#[test]
fn an_answer_that_is_not_awaited_ends_the_pipeline() {
    let (pipeline, _) = asked(start(by_user(text_channel(), data(Some("@everyone")))));
    assert_eq!(failure(pipeline.advance(Response::ServerRoles(vec![]))), Error::InternalError);
    let mut d = data(None);
    d.attachments = Some(ids(&["f1"]));
    let (pipeline, _) = asked(start(by_user(text_channel(), d)));
    assert_eq!(failure(pipeline.advance(Response::Validation(Ok(())))), Error::InternalError);
}

#[test]
fn a_nonce_is_echoed_and_a_second_send_with_it_fails() {
    let mut guard = IdempotencyGuard::new(8);
    let mut d = data(Some("hello"));
    d.nonce = Some(s("n1"));
    let first = Message::create_with_ids(&mut guard, by_user(text_channel(), d.clone()), s(MSG), s(KEY));
    let made = outbox(first);
    assert_eq!(made.message.nonce, Some(s("n1")));
    let second = Message::create_with_ids(&mut guard, by_user(text_channel(), d.clone()), s(A), s(KEY));
    assert_eq!(failure(second), Error::DuplicateRequest);
    let third = Message::create_from_api(
        &mut guard,
        config(),
        text_channel(),
        d,
        MessageAuthor::User(human()),
        Some(human()),
        limits(),
        false,
        true,
    );
    assert_eq!(failure(third), Error::DuplicateRequest);
}

#[test]
fn create_from_api_makes_the_identifiers() {
    let mut guard = IdempotencyGuard::new(8);
    let step = Message::create_from_api(
        &mut guard,
        config(),
        text_channel(),
        data(Some("hello")),
        MessageAuthor::User(human()),
        Some(human()),
        limits(),
        true,
        true,
    );
    let made = outbox(step);
    let alphabet = "0123456789ABCDEFGHJKMNPQRSTVWXYZ";
    assert_eq!(made.message.id.len(), 26);
    assert!(made.message.id.chars().all(|c| alphabet.contains(c)));
    let key = made.message.nonce.clone().unwrap();
    assert_eq!(key.len(), 26);
    assert!(key.chars().all(|c| alphabet.contains(c)));
    assert_ne!(key, made.message.id);
    assert_eq!(made.message.content, Some(s("hello")));
    assert_eq!(
        made.dispatches,
        vec![
            Dispatch::Persist,
            Dispatch::Publish,
            Dispatch::UpdateLastMessageId { is_dm: false },
            Dispatch::GenerateEmbeds,
        ]
    );
}

#[test]
fn the_system_author_is_the_zero_identifier() {
    let mut submission = by_user(text_channel(), data(Some("hello")));
    submission.author = MessageAuthor::System { username: s("sys"), avatar: None };
    submission.user = None;
    let made = outbox(start(submission));
    assert_eq!(made.message.author, "00000000000000000000000000");
}

#[test]
fn suppressed_notifications_are_not_pushed() {
    let text = format!("<@{}>", B);
    let channel = Channel::DirectMessage { id: s("dm"), recipients: ids(&[B]) };
    let mut d = data(Some(&text));
    d.flags = Some(1);
    let made = outbox(start(by_user(channel, d)));
    assert_eq!(made.message.flags, Some(1));
    assert!(made.message.has_suppressed_notifications());
    assert_eq!(
        made.dispatches,
        vec![Dispatch::Persist, Dispatch::Publish, Dispatch::UpdateLastMessageId { is_dm: true }]
    );
}

#[test]
fn plans_of_send_without_notifications() {
    let mut m = Message::default();
    assert_eq!(
        m.send_without_notifications(false, true, false),
        vec![Dispatch::Persist, Dispatch::Publish, Dispatch::UpdateLastMessageId { is_dm: false }]
    );
    m.content = Some(s(""));
    assert_eq!(m.send_without_notifications(true, true, false).len(), 3);
    m.content = Some(s("text"));
    m.mentions = Some(ids(&[A]));
    m.flags = Some(1);
    assert_eq!(
        m.send_without_notifications(true, true, false),
        vec![
            Dispatch::Persist,
            Dispatch::Publish,
            Dispatch::UpdateLastMessageId { is_dm: true },
            Dispatch::QueueMentions { suppressed: true },
            Dispatch::GenerateEmbeds,
        ]
    );
    assert_eq!(
        m.send_without_notifications(true, false, true),
        vec![Dispatch::Persist, Dispatch::Publish, Dispatch::UpdateLastMessageId { is_dm: true }]
    );
    m.flags = Some(6);
    assert_eq!(
        m.send_without_notifications(false, false, false)[3],
        Dispatch::QueueMentions { suppressed: false }
    );
}

#[test]
fn plans_of_send() {
    let mut m = Message::default();
    m.mentions = Some(ids(&[A]));
    let voice = Channel::VoiceChannel { id: s("v"), server: s("serv") };
    assert_eq!(
        m.send(&voice, false),
        vec![
            Dispatch::Persist,
            Dispatch::Publish,
            Dispatch::UpdateLastMessageId { is_dm: false },
            Dispatch::PushNotification { target: PushTarget::Nobody },
        ]
    );
    m.mentions = None;
    assert_eq!(m.send(&text_channel(), false).len(), 3);
    m.role_mentions = Some(ids(&[B]));
    assert_eq!(
        m.send(&text_channel(), false)[3],
        Dispatch::PushNotification { target: PushTarget::Mentions }
    );
    m.role_mentions = None;
    m.flags = Some(4);
    assert_eq!(m.send(&text_channel(), false).len(), 3);
    m.flags = Some(2);
    assert_eq!(m.send(&text_channel(), false).len(), 4);
    m.flags = Some(3);
    assert_eq!(m.send(&text_channel(), false).len(), 3);
}

#[test]
fn where_text_and_flags_ask_for_both_broadcast_mentions_everyone_stays() {
    let made = outbox(start(by_webhook(text_channel(), data(Some("@everyone @online")))));
    assert_eq!(made.message.flags, Some(2));
    let made = outbox(start(by_webhook(text_channel(), data(Some("@online @everyone")))));
    assert_eq!(made.message.flags, Some(2));
    let mut d = data(Some("@online"));
    d.flags = Some(2);
    let made = outbox(start(by_webhook(text_channel(), d)));
    assert_eq!(made.message.flags, Some(2));
    let mut d = data(Some("@everyone"));
    d.flags = Some(5);
    let made = outbox(start(by_webhook(text_channel(), d)));
    assert_eq!(made.message.flags, Some(3));
    let saved = Channel::SavedMessages { id: s("saved"), user: s("user") };
    let made = outbox(start(by_webhook(saved, data(Some("@everyone @online")))));
    assert_eq!(made.message.flags, Some(2));
}

#[test]
fn no_made_message_mentions_everyone_and_online_by_text_and_flags() {
    for text in ["hello", "@everyone", "@online", "@everyone @online"] {
        for raw in 0u32..8 {
            for enabled in [false, true] {
                let mut d = data(Some(text));
                d.flags = Some(raw);
                let mut submission = by_webhook(text_channel(), d);
                submission.config.mass_mentions_enabled = enabled;
                match start(submission) {
                    Step::Done(Ok(made)) => {
                        let flags = made.message.flags.unwrap();
                        assert!(flags <= 7);
                        assert!(!(flags & 2 == 2 && flags & 4 == 4));
                    }
                    Step::Done(Err(e)) => assert_eq!(e, Error::InvalidFlagValue),
                    other => panic!("unexpected {:?}", other),
                }
            }
        }
    }
}

#[test]
fn a_member_is_visible_only_where_the_answer_says_yes() {
    let text = format!("<@{}> <@{}> <@{}>", A, B, C);
    let (pipeline, _) = asked(start(by_user(text_channel(), data(Some(&text)))));
    let (pipeline, _) = asked(pipeline.advance(Response::Members(Ok(ids(&[A, B, C])))));
    let made = outbox(pipeline.advance(Response::Visibility(seen_by(&[(A, false), (B, true)]))));
    assert_eq!(made.message.mentions, Some(ids(&[B])));
}

#[test]
fn the_switch_overrides_permissions() {
    let text = format!("@everyone <%{}>", A);
    let mut d = data(Some(&text));
    d.flags = Some(5);
    let mut submission = by_bot(text_channel(), d);
    submission.config.mass_mentions_enabled = false;
    let made = outbox(start(submission));
    assert_eq!(made.message.flags, Some(1));
    assert_eq!(made.message.role_mentions, None);
}

#[test]
fn the_payload_limit_is_exact() {
    let mut d = data(Some("hello"));
    d.embeds = Some(vec![embed(None)]);
    let mut submission = by_user(text_channel(), d.clone());
    submission.limits.message_length = 10;
    let (_, request) = asked(start(submission));
    assert_eq!(request, Request::ValidateEmbed { index: 0 });
    let mut submission = by_user(text_channel(), d);
    submission.limits.message_length = 9;
    assert_eq!(failure(start(submission)), Error::PayloadTooLarge);
}
