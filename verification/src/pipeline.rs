//! The message pipeline: from a send request to a message that is ready
//! to be stored and fanned out.
//!
//! The pipeline decides; it fetches nothing itself. Whenever it needs an
//! answer from a collaborator it stops with a `Request`, and goes on when
//! it is handed the `Response`. A failure at any stage ends it, and no
//! message is then made.

use crate::binder::AttachmentRequest;
use crate::binder::payload_len;
use crate::binder::text_embed;
use crate::error::Error;
use crate::error::PermissionValue;
use crate::fanout::Dispatch;
use crate::flags::MessageFlags;
use crate::flags::MessageFlagsValue;
use crate::flags::bit_set;
use crate::flags::with_bit;
use crate::idempotency::IdempotencyGuard;
use crate::idempotency::answer;
use crate::idempotency::seen_after;
use crate::ident::fresh_id;
use crate::ident::is_id_text;
use crate::idlist::clone_ids;
use crate::idlist::insert_id;
use crate::idlist::with_id;
use crate::indexed::no_entries;
use crate::indexed::table_entries;
use crate::indexed::table_new;
use crate::mentions::MentionResolution;
use crate::mentions::Mentions;
use crate::mentions::parse_message;
use crate::mentions::parsed;
use crate::model::Embed;
use crate::model::File;
use crate::model::Interactions;
use crate::model::Message;
use crate::model::listed;
use crate::model::Text;
use crate::request::Channel;
use crate::request::Config;
use crate::request::DataMessageSend;
use crate::request::FeaturesLimits;
use crate::request::MessageAuthor;
use crate::request::User;
use crate::request::clone_text;
use crate::request::lemma_counts_fit;
use vstd::prelude::*;

verus! {

/// Everything a caller hands in with one send request. The pipeline reads
/// it and never changes it.
#[derive(Clone, Debug, PartialEq, Eq)]
pub struct Submission {
    /// Where the message goes.
    pub channel: Channel,
    /// The payload.
    pub data: DataMessageSend,
    /// Who sends the message.
    pub author: MessageAuthor,
    /// The user on whose behalf the request is made, if there is one.
    pub user: Option<User>,
    /// The limits of the caller's tier.
    pub limits: FeaturesLimits,
    /// The settings that hold for every caller.
    pub config: Config,
    /// Whether embeds are to be made from the content.
    pub generate_embeds: bool,
    /// Whether the caller may mention at all.
    pub allow_mentions: bool,
}

/// The answer that a pipeline waits for.
#[derive(Clone, Copy, Debug, PartialEq, Eq, Structural)]
pub enum Stage {
    /// The roles of the server.
    Roles,
    /// The author's permissions in the channel.
    Permissions,
    /// The target of the reply intent with this index.
    Reply(usize),
    /// Which of the mentioned users are members of the server.
    Members,
    /// Which of those members can see the channel.
    Visibility,
    /// The upload of the attachment with this index.
    Attachment(usize),
    /// The verdict on the embed with this index.
    Validation(usize),
    /// The upload that is the media of the embed with this index.
    Media(usize),
}

/// A send request on its way through the stages. A pipeline is made by
/// taking a request in and changes only by `advance`, so that what it
/// holds is always sound.
#[derive(Debug, PartialEq, Eq)]
pub struct Pipeline {
    work: Progress,
}

/// What a pipeline holds.
#[derive(Debug, PartialEq, Eq)]
struct Progress {
    submission: Submission,
    stage: Stage,
    /// The id of the message that is being made.
    id: String,
    /// The key to echo to the client.
    key: String,
    /// Whether the message suppresses notifications.
    suppress: bool,
    /// The mentions as they stand.
    mentions: MentionResolution,
    /// The messages replied to, as far as they are resolved.
    replies: Vec<String>,
    /// The attachments, as far as they are bound.
    attachments: Vec<File>,
    /// The embeds, as far as they are made.
    embeds: Vec<Embed>,
}

/// A pipeline as plain values.
pub struct PipelineView {
    pub submission: Submission,
    pub stage: Stage,
    pub id: Seq<char>,
    pub key: Seq<char>,
    pub suppress: bool,
    pub mentions: Mentions,
    pub replies: Seq<Seq<char>>,
    pub attachments: Seq<File>,
    pub embeds: Seq<Embed>,
}

impl View for Pipeline {
    type V = PipelineView;

    closed spec fn view(&self) -> PipelineView {
        self.work@
    }
}

impl View for Progress {
    type V = PipelineView;

    closed spec fn view(&self) -> PipelineView {
        PipelineView {
            submission: self.submission,
            stage: self.stage,
            id: self.id@,
            key: self.key@,
            suppress: self.suppress,
            mentions: self.mentions@,
            replies: self.replies.deep_view(),
            attachments: self.attachments@,
            embeds: self.embeds@,
        }
    }
}

/// A stored message as far as a reply needs it.
#[derive(Clone, Debug, PartialEq, Eq)]
pub struct ReplyTarget {
    pub id: String,
    pub author: String,
}

/// What the pipeline asks of a collaborator.
#[derive(Clone, Debug, PartialEq, Eq)]
pub enum Request {
    /// The ids of the roles that exist on `server`.
    FetchServerRoles { server: String },
    /// The permissions of `user` in the channel of the submission.
    ChannelPermissions { user: String },
    /// The stored message `id`.
    FetchMessage { id: String },
    /// Those of `users` that are members of `server`.
    FetchMembers { server: String, users: Vec<String> },
    /// Those of `members` that can see the channel of the submission.
    MembersCanSeeChannel { server: String, members: Vec<String> },
    /// The upload, bound to the message and its author.
    UseAttachment(AttachmentRequest),
    /// The verdict of field validation on the embed with this index.
    ValidateEmbed { index: usize },
}

/// A request as plain values.
pub enum Asked {
    FetchServerRoles { server: Seq<char> },
    ChannelPermissions { user: Seq<char> },
    FetchMessage { id: Seq<char> },
    FetchMembers { server: Seq<char>, users: Seq<Seq<char>> },
    MembersCanSeeChannel { server: Seq<char>, members: Seq<Seq<char>> },
    UseAttachment { id: Seq<char>, message_id: Seq<char>, author_id: Seq<char> },
    ValidateEmbed { index: usize },
}

impl View for Request {
    type V = Asked;

    open spec fn view(&self) -> Asked {
        match *self {
            Request::FetchServerRoles { server } => Asked::FetchServerRoles { server: server@ },
            Request::ChannelPermissions { user } => Asked::ChannelPermissions { user: user@ },
            Request::FetchMessage { id } => Asked::FetchMessage { id: id@ },
            Request::FetchMembers { server, users } => Asked::FetchMembers {
                server: server@,
                users: users.deep_view(),
            },
            Request::MembersCanSeeChannel { server, members } => Asked::MembersCanSeeChannel {
                server: server@,
                members: members.deep_view(),
            },
            Request::UseAttachment(request) => Asked::UseAttachment {
                id: request.id@,
                message_id: request.message_id@,
                author_id: request.author_id@,
            },
            Request::ValidateEmbed { index } => Asked::ValidateEmbed { index },
        }
    }
}

/// What a collaborator answered.
#[derive(Debug, PartialEq, Eq)]
pub enum Response {
    /// The ids of the roles that exist on the server.
    ServerRoles(Vec<String>),
    /// The author's permissions in the channel.
    Permissions(PermissionValue),
    /// The stored message, or why it could not be had.
    Message(Result<ReplyTarget, Error>),
    /// The ids of the members found, or why the lookup failed.
    Members(Result<Vec<String>, Error>),
    /// For each member asked about, whether it can see the channel. A
    /// member that is not answered for counts as one that cannot.
    Visibility(Vec<(String, bool)>),
    /// The upload, or why it could not be bound.
    Attachment(Result<File, Error>),
    /// The verdict on an embed: nothing, or what is wrong with it.
    Validation(Result<(), String>),
}

/// The members that are answered for with yes, in the order of the answers.
pub open spec fn granted(answers: Seq<(String, bool)>) -> Seq<Seq<char>>
    decreases answers.len(),
{
    if answers.len() == 0 {
        Seq::empty()
    } else if answers.last().1 {
        granted(answers.drop_last()).push(answers.last().0@)
    } else {
        granted(answers.drop_last())
    }
}

/// The members that are answered for with yes, in the order of the answers.
pub fn granted_ids(answers: &Vec<(String, bool)>) -> (r: Vec<String>)
    ensures
        r.deep_view() == granted(answers@),
{
    let mut out: Vec<String> = Vec::new();
    let mut i: usize = 0;
    assert(out.deep_view() =~= granted(answers@.take(0)));
    while i < answers.len()
        invariant
            i <= answers.len(),
            out.deep_view() == granted(answers@.take(i as int)),
        decreases answers.len() - i,
    {
        let ghost before = out.deep_view();
        assert(answers@.take(i as int + 1).drop_last() =~= answers@.take(i as int));
        if answers[i].1 {
            out.push(answers[i].0.clone());
            assert(out.deep_view() =~= before.push(answers[i as int].0@));
        }
        i = i + 1;
    }
    assert(answers@.take(answers.len() as int) =~= answers@);
    out
}

/// A response as plain values.
pub enum Answer {
    ServerRoles(Seq<Seq<char>>),
    Permissions(PermissionValue),
    Found { id: Seq<char>, author: Seq<char> },
    NotFetched(Error),
    Members(Seq<Seq<char>>),
    NoMembers(Error),
    Visibility(Seq<Seq<char>>),
    Attachment(Result<File, Error>),
    Validation(Result<(), String>),
}

impl View for Response {
    type V = Answer;

    open spec fn view(&self) -> Answer {
        match *self {
            Response::ServerRoles(roles) => Answer::ServerRoles(roles.deep_view()),
            Response::Permissions(permissions) => Answer::Permissions(permissions),
            Response::Message(Ok(target)) => Answer::Found { id: target.id@, author: target.author@ },
            Response::Message(Err(e)) => Answer::NotFetched(e),
            Response::Members(Ok(members)) => Answer::Members(members.deep_view()),
            Response::Members(Err(e)) => Answer::NoMembers(e),
            Response::Visibility(answers) => Answer::Visibility(granted(answers@)),
            Response::Attachment(r) => Answer::Attachment(r),
            Response::Validation(r) => Answer::Validation(r),
        }
    }
}

/// A message that is ready, with the plan for sending it.
#[derive(Clone, Debug, PartialEq, Eq)]
pub struct Outbox {
    pub message: Message,
    /// What to do with the message, in this order.
    pub dispatches: Vec<Dispatch>,
}

/// Where a pipeline stands after a step.
#[derive(Debug, PartialEq, Eq)]
pub enum Step {
    /// It waits for the answer to a request.
    Ask(Pipeline, Request),
    /// It has ended: with a message to send, or with the failure.
    Done(Result<Outbox, Error>),
}

/// Where a pipeline stands after a step, as plain values.
pub enum Outcome {
    /// It waits for the answer to a request.
    Ask(PipelineView, Asked),
    /// It has failed.
    Fail(Error),
    /// It has run through, and the message is made of what it holds.
    Deliver(PipelineView),
}

/// The flags of a message that suppresses notifications, mentions
/// everyone and mentions everyone online as the three arguments say.
pub open spec fn assembled_flags(suppress: bool, everyone: bool, online: bool) -> u32 {
    with_bit(with_bit(with_bit(0, 0, suppress), 1, everyone), 2, online)
}

/// A list as a message stores it: absent when it is empty.
pub open spec fn absent_if_empty<T>(items: Seq<T>) -> Option<Seq<T>> {
    if items.len() == 0 {
        None
    } else {
        Some(items)
    }
}

/// What the flags of a request ask for: whether to suppress
/// notifications, to mention everyone, to mention everyone online.
pub struct FlagIntent {
    pub suppress: bool,
    pub everyone: bool,
    pub online: bool,
}

impl Submission {
    /// Whether the author of the request is a user and no bot.
    pub open spec fn by_human(self) -> bool {
        self.user matches Some(u) && !u.bot
    }

    /// Whether mass mentions are open to this request: the feature is
    /// switched on and the caller may mention.
    pub open spec fn allows_mass_mentions(self) -> bool {
        self.allow_mentions && self.config.mass_mentions_enabled
    }

    /// What the raw flags ask for. A value above 7 has a bit that means
    /// nothing and is refused as a whole. Asking to mention everyone or
    /// everyone online takes a bot, and asking for both is refused; a
    /// caller who may not mention asks for neither.
    pub open spec fn flag_intent(self) -> Result<FlagIntent, Error> {
        match self.data.flags {
            None => Ok(FlagIntent { suppress: false, everyone: false, online: false }),
            Some(raw) => {
                let everyone = self.allow_mentions && bit_set(raw, 1);
                let online = self.allow_mentions && bit_set(raw, 2);
                if raw > 7 {
                    Err(Error::InvalidProperty)
                } else if self.by_human() && (everyone || online) {
                    Err(Error::IsNotBot)
                } else if everyone && online {
                    Err(Error::InvalidFlagValue)
                } else {
                    Ok(FlagIntent { suppress: bit_set(raw, 0), everyone, online })
                }
            },
        }
    }

    /// What the content mentions; nothing where there is no content.
    pub open spec fn text_mentions(self) -> Mentions {
        match self.data.content {
            Some(text) => parsed(text@),
            None => Mentions::none(),
        }
    }

    /// Whether the textual size of the payload is within the caller's limit.
    pub open spec fn fits(self) -> bool {
        payload_len(self.data.content, self.data.sendable_embeds()) <= self.limits.message_length
    }
}

/// What the guard remembers after a request came in: the nonce is
/// consumed only for a payload that fits.
pub open spec fn seen_after_intake(seen: Seq<Seq<char>>, window: nat, submission: Submission) -> Seq<
    Seq<char>,
> {
    if submission.fits() {
        seen_after(seen, window, submission.data.nonce.deep_view())
    } else {
        seen
    }
}

/// The pipeline of a request that has passed the checks of intake, before
/// its first stage. It mentions what the text mentions and what the flags
/// ask for; where that is both everyone and everyone online, it mentions
/// everyone. Nothing is replied to, bound or made yet.
pub open spec fn first_view(submission: Submission, id: Seq<char>, key: Seq<char>, intent: FlagIntent) -> PipelineView {
    PipelineView {
        submission,
        stage: Stage::Roles,
        id,
        key,
        suppress: intent.suppress,
        mentions: submission.text_mentions().merged(intent.everyone, intent.online).resolved(),
        replies: Seq::empty(),
        attachments: Seq::empty(),
        embeds: Seq::empty(),
    }
}

/// The first step of a send request, up to the first question to a
/// collaborator. `seen` is what the idempotency guard remembers, `id` the
/// id of the message to be, `fresh` the key for a request without nonce.
/// In this order: the payload has to fit, the nonce has to be new, the
/// payload may not be empty, the flags and the interaction policy have to
/// be acceptable. Then the mentions of the text are taken together with
/// those that the flags ask for, and of the two broadcast mentions at
/// most one is kept.
pub open spec fn intake(seen: Seq<Seq<char>>, submission: Submission, id: Seq<char>, fresh: Seq<char>) -> Outcome {
    if !submission.fits() {
        Outcome::Fail(Error::PayloadTooLarge)
    } else {
        match answer(seen, submission.data.nonce.deep_view(), fresh) {
            Err(e) => Outcome::Fail(e),
            Ok(key) => if submission.data.is_empty() {
                Outcome::Fail(Error::EmptyMessage)
            } else {
                match submission.flag_intent() {
                    Err(e) => Outcome::Fail(e),
                    Ok(intent) => if submission.data.interactions matches Some(policy)
                        && policy.restricts_to_nothing() {
                        Outcome::Fail(Error::InvalidProperty)
                    } else {
                        first_view(submission, id, key, intent).enter_roles()
                    },
                }
            },
        }
    }
}

impl PipelineView {
    /// Whether the pipeline holds what a message can be made of: sound
    /// mentions, no reply target twice, and an interaction policy that
    /// restricts reactions only to a list that holds something.
    pub open spec fn sound(self) -> bool {
        &&& self.mentions.sound()
        &&& self.replies.no_duplicates()
        &&& !(self.submission.data.interactions matches Some(policy)
            && policy.restricts_to_nothing())
    }

    /// Role mentions are narrowed to the roles of the server, where mass
    /// mentions are open to the request, the channel belongs to a server
    /// and a role is mentioned.
    pub open spec fn enter_roles(self) -> Outcome {
        match self.submission.channel.spec_server() {
            Some(server) if self.submission.allows_mass_mentions() && self.mentions.roles.len() > 0 =>
                Outcome::Ask(
                PipelineView { stage: Stage::Roles, ..self },
                Asked::FetchServerRoles { server: server@ },
            ),
            _ => self.enter_mass(),
        }
    }

    /// The roles of the server are known: unknown roles are dropped.
    pub open spec fn on_roles(self, roles: Seq<Seq<char>>) -> Outcome {
        PipelineView { mentions: self.mentions.pruned(roles), ..self }.enter_mass()
    }

    /// Mass mentions are dropped where the feature is switched off. Else a
    /// mass mention is refused to the system, let pass for a webhook, and
    /// for a user it depends on the user's permissions.
    pub open spec fn enter_mass(self) -> Outcome {
        if !self.submission.config.mass_mentions_enabled {
            PipelineView { mentions: self.mentions.without_mass(), ..self }.enter_replies()
        } else if self.mentions.has_mass_mention() {
            match self.submission.author {
                MessageAuthor::System { .. } => Outcome::Fail(Error::InvalidProperty),
                MessageAuthor::Webhook { .. } => self.enter_replies(),
                MessageAuthor::User(user) => Outcome::Ask(
                    PipelineView { stage: Stage::Permissions, ..self },
                    Asked::ChannelPermissions { user: user.id@ },
                ),
            }
        } else {
            self.enter_replies()
        }
    }

    /// The author's permissions are known: a mass mention needs its capability.
    pub open spec fn on_permissions(self, permissions: PermissionValue) -> Outcome {
        match self.mentions.lacking(permissions) {
            Some(permission) => Outcome::Fail(Error::MissingPermission { permission }),
            None => self.enter_replies(),
        }
    }

    /// More reply intents than the limit end the pipeline before any of
    /// them is resolved.
    pub open spec fn enter_replies(self) -> Outcome {
        if self.submission.data.reply_intents().len() > self.submission.config.message_replies {
            Outcome::Fail(Error::TooManyReplies { max: self.submission.config.message_replies })
        } else {
            self.ask_reply(0)
        }
    }

    /// The reply intents are resolved one by one, in their order.
    pub open spec fn ask_reply(self, index: int) -> Outcome {
        let intents = self.submission.data.reply_intents();
        if 0 <= index < intents.len() {
            Outcome::Ask(
                PipelineView { stage: Stage::Reply(index as usize), ..self },
                Asked::FetchMessage { id: intents[index].id@ },
            )
        } else {
            self.enter_narrow()
        }
    }

    /// The target of a reply was found: it is replied to, and its author
    /// is mentioned where the intent asks for it and the caller may mention.
    pub open spec fn on_reply_found(self, index: int, id: Seq<char>, author: Seq<char>) -> Outcome {
        let intent = self.submission.data.reply_intents()[index];
        PipelineView {
            mentions: if intent.mention && self.submission.allow_mentions {
                self.mentions.with_user(author)
            } else {
                self.mentions
            },
            replies: with_id(self.replies, id),
            ..self
        }.ask_reply(index + 1)
    }

    /// The target of a reply could not be had. That ends the pipeline,
    /// unless the target does not exist and the intent is not strict: then
    /// this one reply is left out.
    pub open spec fn on_reply_missing(self, index: int, e: Error) -> Outcome {
        let intent = self.submission.data.reply_intents()[index];
        if e is NotFound && !intent.strict() {
            self.ask_reply(index + 1)
        } else {
            Outcome::Fail(e)
        }
    }

    /// User mentions are narrowed to whom the message can reach: between
    /// people to the recipients, and roles mean nothing there; in notes to
    /// self to nobody; on a server to its members, if anyone is mentioned.
    pub open spec fn enter_narrow(self) -> Outcome {
        match self.submission.channel {
            Channel::DirectMessage { recipients, .. } => PipelineView {
                mentions: self.mentions.among_recipients(recipients.deep_view()),
                ..self
            }.enter_bind(),
            Channel::Group { recipients, .. } => PipelineView {
                mentions: self.mentions.among_recipients(recipients.deep_view()),
                ..self
            }.enter_bind(),
            Channel::SavedMessages { .. } => PipelineView {
                mentions: self.mentions.without_users(),
                ..self
            }.enter_bind(),
            Channel::TextChannel { server, .. } => self.ask_members(server@),
            Channel::VoiceChannel { server, .. } => self.ask_members(server@),
        }
    }

    /// On a server the members among the mentioned users are asked for,
    /// if anyone is mentioned.
    pub open spec fn ask_members(self, server: Seq<char>) -> Outcome {
        if self.mentions.users.len() > 0 {
            Outcome::Ask(
                PipelineView { stage: Stage::Members, ..self },
                Asked::FetchMembers { server, users: self.mentions.users },
            )
        } else {
            self.enter_bind()
        }
    }

    /// The members are known: who is no member is dropped. If anyone is
    /// left, it is asked who of the members can see the channel.
    pub open spec fn on_members(self, members: Seq<Seq<char>>) -> Outcome {
        let next = PipelineView { mentions: self.mentions.narrowed(members), ..self };
        match self.submission.channel.spec_server() {
            Some(server) if next.mentions.users.len() > 0 => Outcome::Ask(
                PipelineView { stage: Stage::Visibility, ..next },
                Asked::MembersCanSeeChannel { server: server@, members },
            ),
            _ => next.enter_bind(),
        }
    }

    /// It is known who can see the channel: who cannot is dropped.
    pub open spec fn on_visibility(self, visible: Seq<Seq<char>>) -> Outcome {
        PipelineView { mentions: self.mentions.narrowed(visible), ..self }.enter_bind()
    }

    /// More attachments than the caller's tier allows, or more embeds
    /// than the limit, end the pipeline before anything is bound.
    pub open spec fn enter_bind(self) -> Outcome {
        if self.submission.data.attachment_ids().len() > self.submission.limits.message_attachments {
            Outcome::Fail(
                Error::TooManyAttachments { max: self.submission.limits.message_attachments },
            )
        } else if self.submission.data.sendable_embeds().len()
            > self.submission.config.message_embeds {
            Outcome::Fail(Error::TooManyEmbeds { max: self.submission.config.message_embeds })
        } else {
            self.ask_attachment(0)
        }
    }

    /// The request that binds upload `id` to the message that is being made.
    pub open spec fn binding(self, id: Seq<char>) -> Asked {
        Asked::UseAttachment { id, message_id: self.id, author_id: self.submission.author.id() }
    }

    /// The attachments are bound one by one, in their order.
    pub open spec fn ask_attachment(self, index: int) -> Outcome {
        let ids = self.submission.data.attachment_ids();
        if 0 <= index < ids.len() {
            Outcome::Ask(
                PipelineView { stage: Stage::Attachment(index as usize), ..self },
                self.binding(ids[index]@),
            )
        } else {
            self.ask_validation(0)
        }
    }

    /// An attachment was bound, or the failure to bind it ends the pipeline.
    pub open spec fn on_attachment(self, index: int, bound: Result<File, Error>) -> Outcome {
        match bound {
            Err(e) => Outcome::Fail(e),
            Ok(file) => PipelineView { attachments: self.attachments.push(file), ..self }.ask_attachment(
                index + 1,
            ),
        }
    }

    /// The embeds are validated one by one, in their order.
    pub open spec fn ask_validation(self, index: int) -> Outcome {
        let embeds = self.submission.data.sendable_embeds();
        if 0 <= index < embeds.len() {
            Outcome::Ask(
                PipelineView { stage: Stage::Validation(index as usize), ..self },
                Asked::ValidateEmbed { index: index as usize },
            )
        } else {
            Outcome::Deliver(self)
        }
    }

    /// An embed was validated. One that is not valid ends the pipeline.
    /// The media of a valid one is bound before the next embed is looked at.
    pub open spec fn on_validation(self, index: int, verdict: Result<(), String>) -> Outcome {
        let embed = self.submission.data.sendable_embeds()[index];
        match verdict {
            Err(error) => Outcome::Fail(Error::FailedValidation { error }),
            Ok(_) => match embed.media {
                Some(id) => Outcome::Ask(
                    PipelineView { stage: Stage::Media(index as usize), ..self },
                    self.binding(id@),
                ),
                None => PipelineView {
                    embeds: self.embeds.push(text_embed(embed, None)),
                    ..self
                }.ask_validation(index + 1),
            },
        }
    }

    /// The media of an embed was bound, or the failure ends the pipeline.
    pub open spec fn on_media(self, index: int, bound: Result<File, Error>) -> Outcome {
        let embed = self.submission.data.sendable_embeds()[index];
        match bound {
            Err(e) => Outcome::Fail(e),
            Ok(file) => PipelineView {
                embeds: self.embeds.push(text_embed(embed, Some(file))),
                ..self
            }.ask_validation(index + 1),
        }
    }

    /// What an answer leads to. An answer that the stage does not wait
    /// for, or an index out of range, ends the pipeline with `InternalError`.
    pub open spec fn advance(self, answer: Answer) -> Outcome {
        match (self.stage, answer) {
            (Stage::Roles, Answer::ServerRoles(roles)) => self.on_roles(roles),
            (Stage::Permissions, Answer::Permissions(permissions)) => self.on_permissions(permissions),
            (Stage::Reply(index), Answer::Found { id, author }) if index
                < self.submission.data.reply_intents().len() => self.on_reply_found(
                index as int,
                id,
                author,
            ),
            (Stage::Reply(index), Answer::NotFetched(e)) if index
                < self.submission.data.reply_intents().len() => self.on_reply_missing(index as int, e),
            (Stage::Members, Answer::Members(members)) => self.on_members(members),
            (Stage::Members, Answer::NoMembers(_)) => Outcome::Fail(Error::InternalError),
            (Stage::Visibility, Answer::Visibility(visible)) => self.on_visibility(visible),
            (Stage::Attachment(index), Answer::Attachment(bound)) if index
                < self.submission.data.attachment_ids().len() => self.on_attachment(index as int, bound),
            (Stage::Validation(index), Answer::Validation(verdict)) if index
                < self.submission.data.sendable_embeds().len() => self.on_validation(
                index as int,
                verdict,
            ),
            (Stage::Media(index), Answer::Attachment(bound)) if index
                < self.submission.data.sendable_embeds().len() => self.on_media(index as int, bound),
            _ => Outcome::Fail(Error::InternalError),
        }
    }

    /// Whether `m` is the message made of what the pipeline holds at its
    /// end. Lists that ended up empty are absent, the flags are assembled
    /// anew, and what the pipeline does not set is as in a new message.
    pub open spec fn makes(self, m: Message) -> bool {
        let data = self.submission.data;
        &&& m.id@ == self.id
        &&& m.nonce matches Some(key) && key@ == self.key
        &&& m.channel == self.submission.channel.spec_id()
        &&& m.author@ == self.submission.author.id()
        &&& m.webhook == self.submission.author.webhook()
        &&& m.content == data.content
        &&& m.system is None
        &&& m.edited is None
        &&& m.pinned is None
        &&& m.masquerade == data.masquerade
        &&& match data.interactions {
            Some(policy) => m.interactions == policy,
            None => m.interactions.spec_is_default(),
        }
        &&& table_entries(m.reactions) == no_entries()
        &&& m.mentions.deep_view() == absent_if_empty(self.mentions.users)
        &&& m.role_mentions.deep_view() == absent_if_empty(self.mentions.roles)
        &&& m.replies.deep_view() == absent_if_empty(self.replies)
        &&& match m.attachments {
            Some(files) => absent_if_empty(self.attachments) == Some(files@),
            None => self.attachments.len() == 0,
        }
        &&& match m.embeds {
            Some(embeds) => absent_if_empty(self.embeds) == Some(embeds@),
            None => self.embeds.len() == 0,
        }
        &&& m.flags == Some(
            assembled_flags(self.suppress, self.mentions.everyone, self.mentions.online),
        )
    }
}

impl Step {
    /// Whether the step is what `outcome` describes. A pipeline that has
    /// run through hands out its message, which is well formed, with the
    /// plan for sending it.
    pub open spec fn fulfils(self, outcome: Outcome) -> bool {
        match outcome {
            Outcome::Ask(pipeline, asked) => self matches Step::Ask(p, request) && p@ == pipeline
                && request@ == asked,
            Outcome::Fail(e) => self matches Step::Done(Err(x)) && x == e,
            Outcome::Deliver(pipeline) => self matches Step::Done(Ok(outbox)) && pipeline.makes(
                outbox.message,
            ) && outbox.message.well_formed() && outbox.dispatches@ == outbox.message.send_plan(
                pipeline.submission.channel,
                pipeline.submission.generate_embeds,
            ),
        }
    }
}

impl Pipeline {
    #[verifier::type_invariant]
    spec fn inv(self) -> bool {
        self@.sound()
    }

    /// The request that the pipeline works on.
    pub fn submission(&self) -> (r: &Submission)
        ensures
            *r == self@.submission,
    {
        &self.work.submission
    }

    /// The answer that the pipeline waits for.
    pub fn stage(&self) -> (r: Stage)
        ensures
            r == self@.stage,
    {
        self.work.stage
    }

    /// The mentions as they stand.
    pub fn mentions(&self) -> (r: &MentionResolution)
        ensures
            r@ == self@.mentions,
    {
        &self.work.mentions
    }

    /// Goes on with the answer to the request that the pipeline stopped
    /// with. An answer of another kind than the one awaited ends the
    /// pipeline with `InternalError`.
    pub fn advance(self, response: Response) -> (r: Step)
        ensures
            r.fulfils(self@.advance(response@)),
    {
        proof {
            use_type_invariant(&self);
        }
        let work = self.work;
        match (work.stage, response) {
            (Stage::Roles, Response::ServerRoles(roles)) => work.on_roles(roles),
            (Stage::Permissions, Response::Permissions(permissions)) => work.on_permissions(
                permissions,
            ),
            (Stage::Reply(index), Response::Message(found)) => {
                if index < work.reply_count() {
                    match found {
                        Ok(target) => work.on_reply_found(index, target),
                        Err(e) => work.on_reply_missing(index, e),
                    }
                } else {
                    Step::Done(Err(Error::InternalError))
                }
            },
            (Stage::Members, Response::Members(Ok(members))) => work.on_members(members),
            (Stage::Members, Response::Members(Err(_))) => Step::Done(Err(Error::InternalError)),
            (Stage::Visibility, Response::Visibility(answers)) => work.on_visibility(
                granted_ids(&answers),
            ),
            (Stage::Attachment(index), Response::Attachment(bound)) => {
                if index < work.attachment_count() {
                    work.on_attachment(index, bound)
                } else {
                    Step::Done(Err(Error::InternalError))
                }
            },
            (Stage::Validation(index), Response::Validation(verdict)) => {
                if index < work.embed_count() {
                    work.on_validation(index, verdict)
                } else {
                    Step::Done(Err(Error::InternalError))
                }
            },
            (Stage::Media(index), Response::Attachment(bound)) => {
                if index < work.embed_count() {
                    work.on_media(index, bound)
                } else {
                    Step::Done(Err(Error::InternalError))
                }
            },
            _ => Step::Done(Err(Error::InternalError)),
        }
    }
}

impl Progress {
    fn reply_count(&self) -> (r: usize)
        ensures
            r == self.submission.data.reply_intents().len(),
    {
        self.submission.data.intents().len()
    }

    fn attachment_count(&self) -> (r: usize)
        ensures
            r == self.submission.data.attachment_ids().len(),
    {
        self.submission.data.uploads().len()
    }

    fn embed_count(&self) -> (r: usize)
        ensures
            r == self.submission.data.sendable_embeds().len(),
    {
        self.submission.data.submitted_embeds().len()
    }

    fn server_id(&self) -> (r: Option<String>)
        ensures
            r == self.submission.channel.spec_server(),
    {
        match self.submission.channel.server() {
            Some(server) => Some(server.clone()),
            None => None,
        }
    }

    fn bind(&self, id: &String) -> (r: Request)
        ensures
            r@ == self@.binding(id@),
    {
        Request::UseAttachment(
            AttachmentRequest {
                id: id.clone(),
                message_id: self.id.clone(),
                author_id: self.submission.author.author_id(),
            },
        )
    }

    fn enter_roles(self) -> (r: Step)
        requires
            self@.sound(),
        ensures
            r.fulfils(self@.enter_roles()),
    {
        let mut p = self;
        if p.submission.allow_mentions && p.submission.config.mass_mentions_enabled
            && p.mentions.role_mentions.len() > 0 {
            if let Some(server) = p.server_id() {
                p.stage = Stage::Roles;
                return Step::Ask(Pipeline { work: p }, Request::FetchServerRoles { server });
            }
        }
        p.enter_mass()
    }

    fn on_roles(self, roles: Vec<String>) -> (r: Step)
        requires
            self@.sound(),
        ensures
            r.fulfils(self@.on_roles(roles.deep_view())),
    {
        let mut p = self;
        p.mentions.prune_roles(&roles);
        p.enter_mass()
    }

    fn enter_mass(self) -> (r: Step)
        requires
            self@.sound(),
        ensures
            r.fulfils(self@.enter_mass()),
    {
        let mut p = self;
        if !p.submission.config.mass_mentions_enabled {
            p.mentions.clear_mass_mentions();
            p.enter_replies()
        } else if p.mentions.has_mass_mention() {
            let user = match &p.submission.author {
                MessageAuthor::System { .. } => {
                    return Step::Done(Err(Error::InvalidProperty));
                },
                MessageAuthor::Webhook { .. } => None,
                MessageAuthor::User(user) => Some(user.id.clone()),
            };
            match user {
                None => p.enter_replies(),
                Some(user) => {
                    p.stage = Stage::Permissions;
                    Step::Ask(Pipeline { work: p }, Request::ChannelPermissions { user })
                },
            }
        } else {
            p.enter_replies()
        }
    }

    fn on_permissions(self, permissions: PermissionValue) -> (r: Step)
        requires
            self@.sound(),
        ensures
            r.fulfils(self@.on_permissions(permissions)),
    {
        match self.mentions.check_permissions(&permissions) {
            Err(e) => Step::Done(Err(e)),
            Ok(_) => self.enter_replies(),
        }
    }

    fn enter_replies(self) -> (r: Step)
        requires
            self@.sound(),
        ensures
            r.fulfils(self@.enter_replies()),
    {
        if self.reply_count() > self.submission.config.message_replies {
            let max = self.submission.config.message_replies;
            return Step::Done(Err(Error::TooManyReplies { max }));
        }
        self.ask_reply(0)
    }

    fn ask_reply(self, index: usize) -> (r: Step)
        requires
            self@.sound(),
        ensures
            r.fulfils(self@.ask_reply(index as int)),
    {
        let mut p = self;
        if index < p.reply_count() {
            let id = p.submission.data.intents()[index].id.clone();
            p.stage = Stage::Reply(index);
            Step::Ask(Pipeline { work: p }, Request::FetchMessage { id })
        } else {
            p.enter_narrow()
        }
    }

    fn on_reply_found(self, index: usize, target: ReplyTarget) -> (r: Step)
        requires
            self@.sound(),
            index < self.submission.data.reply_intents().len(),
        ensures
            r.fulfils(self@.on_reply_found(index as int, target.id@, target.author@)),
    {
        let mut p = self;
        let mention = p.submission.data.intents()[index].mention;
        if mention && p.submission.allow_mentions {
            p.mentions.mention_user(target.author);
        }
        insert_id(&mut p.replies, target.id);
        proof {
            lemma_counts_fit(p.submission.data);
        }
        p.ask_reply(index + 1)
    }

    fn on_reply_missing(self, index: usize, e: Error) -> (r: Step)
        requires
            self@.sound(),
            index < self.submission.data.reply_intents().len(),
        ensures
            r.fulfils(self@.on_reply_missing(index as int, e)),
    {
        let strict = match self.submission.data.intents()[index].fail_if_not_exists {
            Some(false) => false,
            _ => true,
        };
        let not_found = match &e {
            Error::NotFound => true,
            _ => false,
        };
        proof {
            lemma_counts_fit(self.submission.data);
        }
        if not_found && !strict {
            self.ask_reply(index + 1)
        } else {
            Step::Done(Err(e))
        }
    }

    fn enter_narrow(self) -> (r: Step)
        requires
            self@.sound(),
        ensures
            r.fulfils(self@.enter_narrow()),
    {
        let mut p = self;
        match &p.submission.channel {
            Channel::DirectMessage { recipients, .. } | Channel::Group { recipients, .. } => {
                p.mentions.narrow_to_recipients(recipients);
                p.enter_bind()
            },
            Channel::SavedMessages { .. } => {
                p.mentions.clear_users();
                p.enter_bind()
            },
            Channel::TextChannel { server, .. } | Channel::VoiceChannel { server, .. } => {
                let server = server.clone();
                p.ask_members(server)
            },
        }
    }

    fn ask_members(self, server: String) -> (r: Step)
        requires
            self@.sound(),
        ensures
            r.fulfils(self@.ask_members(server@)),
    {
        let mut p = self;
        if p.mentions.user_mentions.len() > 0 {
            let users = clone_ids(&p.mentions.user_mentions);
            p.stage = Stage::Members;
            Step::Ask(Pipeline { work: p }, Request::FetchMembers { server, users })
        } else {
            p.enter_bind()
        }
    }

    fn on_members(self, members: Vec<String>) -> (r: Step)
        requires
            self@.sound(),
        ensures
            r.fulfils(self@.on_members(members.deep_view())),
    {
        let mut p = self;
        p.mentions.narrow_users(&members);
        if p.mentions.user_mentions.len() > 0 {
            if let Some(server) = p.server_id() {
                p.stage = Stage::Visibility;
                return Step::Ask(Pipeline { work: p }, Request::MembersCanSeeChannel { server, members });
            }
        }
        p.enter_bind()
    }

    fn on_visibility(self, visible: Vec<String>) -> (r: Step)
        requires
            self@.sound(),
        ensures
            r.fulfils(self@.on_visibility(visible.deep_view())),
    {
        let mut p = self;
        p.mentions.narrow_users(&visible);
        p.enter_bind()
    }

    fn enter_bind(self) -> (r: Step)
        requires
            self@.sound(),
        ensures
            r.fulfils(self@.enter_bind()),
    {
        if self.attachment_count() > self.submission.limits.message_attachments {
            let max = self.submission.limits.message_attachments;
            return Step::Done(Err(Error::TooManyAttachments { max }));
        }
        if self.embed_count() > self.submission.config.message_embeds {
            let max = self.submission.config.message_embeds;
            return Step::Done(Err(Error::TooManyEmbeds { max }));
        }
        self.ask_attachment(0)
    }

    fn ask_attachment(self, index: usize) -> (r: Step)
        requires
            self@.sound(),
        ensures
            r.fulfils(self@.ask_attachment(index as int)),
    {
        let mut p = self;
        if index < p.attachment_count() {
            let request = p.bind(&p.submission.data.uploads()[index]);
            p.stage = Stage::Attachment(index);
            Step::Ask(Pipeline { work: p }, request)
        } else {
            p.ask_validation(0)
        }
    }

    fn on_attachment(self, index: usize, bound: Result<File, Error>) -> (r: Step)
        requires
            self@.sound(),
            index < self.submission.data.attachment_ids().len(),
        ensures
            r.fulfils(self@.on_attachment(index as int, bound)),
    {
        let mut p = self;
        match bound {
            Err(e) => Step::Done(Err(e)),
            Ok(file) => {
                p.attachments.push(file);
                proof {
                    lemma_counts_fit(p.submission.data);
                }
                p.ask_attachment(index + 1)
            },
        }
    }

    fn ask_validation(self, index: usize) -> (r: Step)
        requires
            self@.sound(),
        ensures
            r.fulfils(self@.ask_validation(index as int)),
    {
        let mut p = self;
        if index < p.embed_count() {
            p.stage = Stage::Validation(index);
            Step::Ask(Pipeline { work: p }, Request::ValidateEmbed { index })
        } else {
            p.deliver()
        }
    }

    fn on_validation(self, index: usize, verdict: Result<(), String>) -> (r: Step)
        requires
            self@.sound(),
            index < self.submission.data.sendable_embeds().len(),
        ensures
            r.fulfils(self@.on_validation(index as int, verdict)),
    {
        let mut p = self;
        match verdict {
            Err(error) => Step::Done(Err(Error::FailedValidation { error })),
            Ok(_) => {
                let request = match &p.submission.data.submitted_embeds()[index].media {
                    Some(id) => Some(p.bind(id)),
                    None => None,
                };
                match request {
                    Some(request) => {
                        p.stage = Stage::Media(index);
                        Step::Ask(Pipeline { work: p }, request)
                    },
                    None => {
                        p.attach(index, None);
                        proof {
                            lemma_counts_fit(p.submission.data);
                        }
                        p.ask_validation(index + 1)
                    },
                }
            },
        }
    }

    fn on_media(self, index: usize, bound: Result<File, Error>) -> (r: Step)
        requires
            self@.sound(),
            index < self.submission.data.sendable_embeds().len(),
        ensures
            r.fulfils(self@.on_media(index as int, bound)),
    {
        let mut p = self;
        match bound {
            Err(e) => Step::Done(Err(e)),
            Ok(file) => {
                p.attach(index, Some(file));
                proof {
                    lemma_counts_fit(p.submission.data);
                }
                p.ask_validation(index + 1)
            },
        }
    }

    fn attach(&mut self, index: usize, media: Option<File>)
        requires
            index < old(self).submission.data.sendable_embeds().len(),
        ensures
            final(self)@ == (PipelineView {
                embeds: old(self)@.embeds.push(
                    text_embed(old(self).submission.data.sendable_embeds()[index as int], media),
                ),
                ..old(self)@
            }),
    {
        let e = &self.submission.data.submitted_embeds()[index];
        let embed = Embed::Text(
            Text {
                icon_url: clone_text(&e.icon_url),
                url: clone_text(&e.url),
                title: clone_text(&e.title),
                description: clone_text(&e.description),
                media,
                colour: clone_text(&e.colour),
            },
        );
        self.embeds.push(embed);
    }

    fn deliver(self) -> (r: Step)
        requires
            self@.sound(),
        ensures
            r.fulfils(Outcome::Deliver(self@)),
    {
        let ghost view = self@;
        let Progress { submission, id, key, suppress, mentions, replies, attachments, embeds, .. } = self;
        let Submission { channel, data, author, generate_embeds, .. } = submission;
        let MentionResolution { user_mentions, role_mentions, mentions_everyone, mentions_online } =
            mentions;
        let mut flag_value = MessageFlagsValue(0);
        flag_value.set(MessageFlags::SuppressNotifications, suppress).set(
            MessageFlags::MentionsEveryone,
            mentions_everyone,
        ).set(MessageFlags::MentionsOnline, mentions_online);
        let interactions = match data.interactions {
            Some(policy) => policy,
            None => Interactions::default(),
        };
        let message = Message {
            id,
            nonce: Some(key),
            channel: channel.id().clone(),
            author: author.author_id(),
            webhook: author.message_webhook(),
            content: data.content,
            system: None,
            attachments: if attachments.len() > 0 {
                Some(attachments)
            } else {
                None
            },
            edited: None,
            embeds: if embeds.len() > 0 {
                Some(embeds)
            } else {
                None
            },
            mentions: if user_mentions.len() > 0 {
                Some(user_mentions)
            } else {
                None
            },
            role_mentions: if role_mentions.len() > 0 {
                Some(role_mentions)
            } else {
                None
            },
            replies: if replies.len() > 0 {
                Some(replies)
            } else {
                None
            },
            reactions: table_new(),
            interactions,
            masquerade: data.masquerade,
            pinned: None,
            flags: Some(flag_value.0),
        };
        let dispatches = message.send(&channel, generate_embeds);
        proof {
            assert(view.makes(message));
            lemma_sound_makes_well_formed(view, message);
        }
        Step::Done(Ok(Outbox { message, dispatches }))
    }
}

/// The flags of a message that a run made say what the pipeline held at
/// its end, and nothing else: each defined bit is as the pipeline had it,
/// and no other bit is set.
pub proof fn lemma_flags_of_made_message(p: PipelineView, m: Message)
    requires
        p.makes(m),
    ensures
        m.flags matches Some(flags) && flags <= 7 && bit_set(flags, 0) == p.suppress && bit_set(
            flags,
            1,
        ) == p.mentions.everyone && bit_set(flags, 2) == p.mentions.online,
        m.spec_has_suppressed_notifications() == p.suppress,
{
    let a = with_bit(0, 0, p.suppress);
    let b = with_bit(a, 1, p.mentions.everyone);
    let c = with_bit(b, 2, p.mentions.online);
    crate::flags::lemma_defined_bits_only(p.suppress, p.mentions.everyone, p.mentions.online);
    crate::flags::lemma_set_then_has(0, 0, p.suppress, 0);
    crate::flags::lemma_set_then_has(0, 0, p.suppress, 1);
    crate::flags::lemma_set_then_has(0, 0, p.suppress, 2);
    crate::flags::lemma_set_then_has(a, 1, p.mentions.everyone, 0);
    crate::flags::lemma_set_then_has(a, 1, p.mentions.everyone, 1);
    crate::flags::lemma_set_then_has(a, 1, p.mentions.everyone, 2);
    crate::flags::lemma_set_then_has(b, 2, p.mentions.online, 0);
    crate::flags::lemma_set_then_has(b, 2, p.mentions.online, 1);
    crate::flags::lemma_set_then_has(b, 2, p.mentions.online, 2);
    lemma_no_bit_in_zero();
}

proof fn lemma_no_bit_in_zero()
    ensures
        !bit_set(0, 0),
        !bit_set(0, 1),
        !bit_set(0, 2),
{
    assert(!bit_set(0, 0) && !bit_set(0, 1) && !bit_set(0, 2)) by (bit_vector);
}

/// The message made of what a sound pipeline holds is well formed.
pub proof fn lemma_sound_makes_well_formed(p: PipelineView, m: Message)
    requires
        p.sound(),
        p.makes(m),
    ensures
        m.well_formed(),
{
    lemma_flags_of_made_message(p, m);
    assert(listed(m.mentions) =~= p.mentions.users);
    assert(listed(m.role_mentions) =~= p.mentions.roles);
    assert(listed(m.replies) =~= p.replies);
}

impl Submission {
    /// Reads the raw flags of the request.
    pub fn read_flags(&self) -> (r: Result<FlagIntent, Error>)
        ensures
            r == self.flag_intent(),
    {
        match self.data.flags {
            None => Ok(FlagIntent { suppress: false, everyone: false, online: false }),
            Some(raw) => {
                if raw > 7 {
                    return Err(Error::InvalidProperty);
                }
                let flags = MessageFlagsValue(raw);
                let suppress = flags.has(MessageFlags::SuppressNotifications);
                let everyone = self.allow_mentions && flags.has(
                    MessageFlags::MentionsEveryone,
                );
                let online = self.allow_mentions && flags.has(
                    MessageFlags::MentionsOnline,
                );
                let by_human = match &self.user {
                    Some(user) => !user.bot,
                    None => false,
                };
                if by_human && (everyone || online) {
                    return Err(Error::IsNotBot);
                }
                if everyone && online {
                    return Err(Error::InvalidFlagValue);
                }
                Ok(FlagIntent { suppress, everyone, online })
            },
        }
    }

    /// Whether the payload carries nothing to show.
    pub fn is_empty(&self) -> (r: bool)
        ensures
            r == self.data.is_empty(),
    {
        let no_content = match &self.data.content {
            Some(text) => text.as_str().is_empty(),
            None => true,
        };
        no_content && self.data.uploads().len() == 0 && self.data.submitted_embeds().len() == 0
    }
}

impl Message {
    /// Takes a send request in, with the two identifiers that the request
    /// may need given: `id` for the message, `fresh_key` as the key to
    /// echo where the client sent no nonce. The result is the pipeline's
    /// first step; `Pipeline::advance` takes it from there.
    pub fn create_with_ids(
        idempotency: &mut IdempotencyGuard,
        submission: Submission,
        id: String,
        fresh_key: String,
    ) -> (r: Step)
        ensures
            r.fulfils(intake(old(idempotency).seen(), submission, id@, fresh_key@)),
            final(idempotency).window() == old(idempotency).window(),
            final(idempotency).seen() == seen_after_intake(
                old(idempotency).seen(),
                old(idempotency).window(),
                submission,
            ),
    {
        match Message::validate_sum(
            &submission.data.content,
            submission.data.submitted_embeds(),
            submission.limits.message_length,
        ) {
            Err(e) => {
                return Step::Done(Err(e));
            },
            Ok(_) => {},
        }
        let key = match idempotency.consume_with(
            clone_text(&submission.data.nonce),
            fresh_key,
        ) {
            Err(e) => {
                return Step::Done(Err(e));
            },
            Ok(key) => key,
        };
        if submission.is_empty() {
            return Step::Done(Err(Error::EmptyMessage));
        }
        let intent = match submission.read_flags() {
            Err(e) => {
                return Step::Done(Err(e));
            },
            Ok(intent) => intent,
        };
        if let Some(policy) = &submission.data.interactions {
            match policy.check_restriction() {
                Err(e) => {
                    return Step::Done(Err(e));
                },
                Ok(_) => {},
            }
        }
        let mut mentions = match &submission.data.content {
            Some(text) => parse_message(text.as_str()),
            None => MentionResolution::new(),
        };
        mentions.merge_flags(intent.everyone, intent.online);
        mentions.resolve_broadcast();
        let pipeline = Progress {
            submission,
            stage: Stage::Roles,
            id,
            key,
            suppress: intent.suppress,
            mentions,
            replies: Vec::new(),
            attachments: Vec::new(),
            embeds: Vec::new(),
        };
        assert(pipeline@.replies =~= Seq::empty());
        pipeline.enter_roles()
    }

    /// Takes a send request in. The id of the message is made here, and so
    /// is the key for a request without nonce: which identifiers these are
    /// is open, everything else is decided by the arguments and by what
    /// the guard remembers.
    pub fn create_from_api(
        idempotency: &mut IdempotencyGuard,
        config: Config,
        channel: Channel,
        data: DataMessageSend,
        author: MessageAuthor,
        user: Option<User>,
        limits: FeaturesLimits,
        generate_embeds: bool,
        allow_mentions: bool,
    ) -> (r: Step)
        ensures
            exists|id: Seq<char>, key: Seq<char>|
                is_id_text(id) && is_id_text(key) && #[trigger] r.fulfils(
                    intake(
                        old(idempotency).seen(),
                        (Submission {
                            channel,
                            data,
                            author,
                            user,
                            limits,
                            config,
                            generate_embeds,
                            allow_mentions,
                        }),
                        id,
                        key,
                    ),
                ),
            final(idempotency).window() == old(idempotency).window(),
            final(idempotency).seen() == seen_after_intake(
                old(idempotency).seen(),
                old(idempotency).window(),
                (Submission {
                    channel,
                    data,
                    author,
                    user,
                    limits,
                    config,
                    generate_embeds,
                    allow_mentions,
                }),
            ),
    {
        let submission = Submission {
            channel,
            data,
            author,
            user,
            limits,
            config,
            generate_embeds,
            allow_mentions,
        };
        let id = fresh_id();
        let key = fresh_id();
        Message::create_with_ids(idempotency, submission, id, key)
    }
}

} // verus!
