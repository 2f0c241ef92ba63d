//! What holds of every run of the pipeline.

use crate::binder::text_embed;
use crate::error::Error;
use crate::flags::bit_set;
use crate::flags::lemma_bit_zero_is_parity;
use crate::idempotency::answer;
use crate::idempotency::lemma_resubmission_fails;
use crate::idlist::lemma_keep_listed_members;
use crate::idlist::lemma_keep_listed_shape;
use crate::idlist::lemma_with_id_shape;
use crate::idlist::with_id;
use crate::mentions::lemma_mentions_below_distinct;
use crate::model::listed;
use crate::model::Message;
use crate::pipeline::Answer;
use crate::pipeline::Outcome;
use crate::pipeline::PipelineView;
use crate::pipeline::Stage;
use crate::pipeline::Submission;
use crate::pipeline::first_view;
use crate::pipeline::intake;
use crate::pipeline::lemma_flags_of_made_message;
use crate::pipeline::seen_after_intake;
use crate::request::Channel;
use vstd::prelude::*;

verus! {

/// Where a pipeline stands after the answers of `answers` were handed to
/// it one after the other, starting from `outcome`. Answers that come
/// after the pipeline has ended are not looked at.
pub open spec fn run(outcome: Outcome, answers: Seq<Answer>) -> Outcome
    decreases answers.len(),
{
    if answers.len() == 0 {
        outcome
    } else {
        match outcome {
            Outcome::Ask(pipeline, _) => run(pipeline.advance(answers[0]), answers.drop_first()),
            _ => outcome,
        }
    }
}

/// Whether `later` can come after `earlier` in one run: the submission,
/// the two identifiers and the suppression of notifications are the same,
/// and no broadcast mention was added.
pub open spec fn follows(earlier: PipelineView, later: PipelineView) -> bool {
    &&& later.submission == earlier.submission
    &&& later.id == earlier.id
    &&& later.key == earlier.key
    &&& later.suppress == earlier.suppress
    &&& later.mentions.everyone ==> earlier.mentions.everyone
    &&& later.mentions.online ==> earlier.mentions.online
}

/// Whether `outcome` holds no pipeline but one that can come after `earlier`.
pub open spec fn keeps(earlier: PipelineView, outcome: Outcome) -> bool {
    match outcome {
        Outcome::Ask(later, _) => follows(earlier, later),
        Outcome::Deliver(later) => follows(earlier, later),
        Outcome::Fail(_) => true,
    }
}

/// Whether the pipeline is one of a request that was taken in: the
/// payload fits and is not empty, the flags were acceptable and say
/// whether notifications are suppressed, and the interaction policy is
/// acceptable.
pub open spec fn settled(p: PipelineView) -> bool {
    &&& p.submission.fits()
    &&& !p.submission.data.is_empty()
    &&& p.submission.flag_intent() matches Ok(intent) && p.suppress == intent.suppress
    &&& !(p.submission.data.interactions matches Some(policy) && policy.restricts_to_nothing())
}

proof fn lemma_bind_keeps(p: PipelineView)
    ensures
        keeps(p, p.enter_bind()),
        forall|i: int| keeps(p, #[trigger] p.ask_attachment(i)),
        forall|i: int| keeps(p, #[trigger] p.ask_validation(i)),
{
}

proof fn lemma_narrow_keeps(p: PipelineView)
    ensures
        keeps(p, p.enter_narrow()),
        forall|i: int| keeps(p, #[trigger] p.ask_reply(i)),
        keeps(p, p.enter_replies()),
{
    lemma_bind_keeps(p);
    match p.submission.channel {
        Channel::DirectMessage { recipients, .. } => {
            lemma_bind_keeps(
                PipelineView { mentions: p.mentions.among_recipients(recipients.deep_view()), ..p },
            );
        },
        Channel::Group { recipients, .. } => {
            lemma_bind_keeps(
                PipelineView { mentions: p.mentions.among_recipients(recipients.deep_view()), ..p },
            );
        },
        Channel::SavedMessages { .. } => {
            lemma_bind_keeps(PipelineView { mentions: p.mentions.without_users(), ..p });
        },
        _ => {},
    }
}

proof fn lemma_mass_keeps(p: PipelineView)
    ensures
        keeps(p, p.enter_mass()),
        keeps(p, p.enter_roles()),
{
    lemma_narrow_keeps(p);
    lemma_narrow_keeps(PipelineView { mentions: p.mentions.without_mass(), ..p });
}

/// No step of the pipeline changes the submission, the identifiers or the
/// suppression of notifications, and none adds a broadcast mention.
pub proof fn lemma_advance_keeps(p: PipelineView, a: Answer)
    ensures
        keeps(p, p.advance(a)),
{
    match (p.stage, a) {
        (Stage::Roles, Answer::ServerRoles(roles)) => {
            lemma_mass_keeps(PipelineView { mentions: p.mentions.pruned(roles), ..p });
        },
        (Stage::Permissions, Answer::Permissions(_)) => {
            lemma_narrow_keeps(p);
        },
        (Stage::Reply(index), Answer::Found { id, author }) => {
            if index < p.submission.data.reply_intents().len() {
                let intent = p.submission.data.reply_intents()[index as int];
                let next = PipelineView {
                    mentions: if intent.mention && p.submission.allow_mentions {
                        p.mentions.with_user(author)
                    } else {
                        p.mentions
                    },
                    replies: with_id(p.replies, id),
                    ..p
                };
                lemma_narrow_keeps(next);
            }
        },
        (Stage::Reply(_), Answer::NotFetched(_)) => {
            lemma_narrow_keeps(p);
        },
        (Stage::Members, Answer::Members(members)) => {
            lemma_bind_keeps(PipelineView { mentions: p.mentions.narrowed(members), ..p });
        },
        (Stage::Visibility, Answer::Visibility(visible)) => {
            lemma_bind_keeps(PipelineView { mentions: p.mentions.narrowed(visible), ..p });
        },
        (Stage::Attachment(index), Answer::Attachment(Ok(file))) => {
            lemma_bind_keeps(PipelineView { attachments: p.attachments.push(file), ..p });
        },
        (Stage::Validation(index), Answer::Validation(Ok(_))) => {
            if index < p.submission.data.sendable_embeds().len() {
                let embed = p.submission.data.sendable_embeds()[index as int];
                lemma_bind_keeps(
                    PipelineView {
                        embeds: p.embeds.push(text_embed(embed, None)),
                        ..p
                    },
                );
            }
        },
        (Stage::Media(index), Answer::Attachment(Ok(file))) => {
            if index < p.submission.data.sendable_embeds().len() {
                let embed = p.submission.data.sendable_embeds()[index as int];
                lemma_bind_keeps(
                    PipelineView {
                        embeds: p.embeds.push(text_embed(embed, Some(file))),
                        ..p
                    },
                );
            }
        },
        _ => {},
    }
}

/// Whether `outcome` holds no pipeline but a settled one.
pub open spec fn all_settled(outcome: Outcome) -> bool {
    match outcome {
        Outcome::Ask(p, _) => settled(p),
        Outcome::Deliver(p) => settled(p),
        Outcome::Fail(_) => true,
    }
}

/// A request leaves intake only with a payload that fits and is not
/// empty, with acceptable flags and an acceptable interaction policy.
pub proof fn lemma_intake_settles(seen: Seq<Seq<char>>, submission: Submission, id: Seq<char>, fresh: Seq<char>)
    ensures
        all_settled(intake(seen, submission, id, fresh)),
{
    if submission.fits() && answer(seen, submission.data.nonce.deep_view(), fresh) is Ok
        && !submission.data.is_empty() && submission.flag_intent() is Ok && !(
    submission.data.interactions matches Some(policy) && policy.restricts_to_nothing()) {
        let key = answer(seen, submission.data.nonce.deep_view(), fresh)->Ok_0;
        let intent = submission.flag_intent()->Ok_0;
        let first = first_view(submission, id, key, intent);
        assert(settled(first));
        lemma_mass_keeps(first);
    }
}

/// Being settled lasts through every step.
pub proof fn lemma_advance_settled(p: PipelineView, a: Answer)
    requires
        settled(p),
    ensures
        all_settled(p.advance(a)),
{
    lemma_advance_keeps(p, a);
}

/// Being settled lasts through every run.
pub proof fn lemma_run_settled(outcome: Outcome, answers: Seq<Answer>)
    requires
        all_settled(outcome),
    ensures
        all_settled(run(outcome, answers)),
    decreases answers.len(),
{
    if answers.len() > 0 {
        match outcome {
            Outcome::Ask(pipeline, _) => {
                lemma_advance_settled(pipeline, answers[0]);
                lemma_run_settled(pipeline.advance(answers[0]), answers.drop_first());
            },
            _ => {},
        }
    }
}

/// A failure is final: no answer brings a failed pipeline back.
pub proof fn lemma_failure_is_final(e: Error, answers: Seq<Answer>)
    ensures
        run(Outcome::Fail(e), answers) == Outcome::Fail(e),
    decreases answers.len(),
{
}

/// Raw flags above 7 are refused whatever else the request holds: no run
/// that starts with them makes a message. Where the payload fits, the
/// nonce is new and the payload is not empty, the failure is
/// `InvalidProperty`.
pub proof fn lemma_undefined_flags_rejected(
    seen: Seq<Seq<char>>,
    submission: Submission,
    id: Seq<char>,
    fresh: Seq<char>,
    answers: Seq<Answer>,
)
    requires
        submission.data.flags matches Some(raw) && raw > 7,
    ensures
        run(intake(seen, submission, id, fresh), answers) is Fail,
        submission.fits() && answer(seen, submission.data.nonce.deep_view(), fresh) is Ok
            && !submission.data.is_empty() ==> intake(seen, submission, id, fresh) == Outcome::Fail(
            Error::InvalidProperty,
        ),
{
    let first = intake(seen, submission, id, fresh);
    assert(first is Fail);
    lemma_failure_is_final(first->Fail_0, answers);
}

/// A policy that restricts reactions to a list that is absent or empty is
/// refused whatever else the request holds: no run that starts with it
/// makes a message. Where nothing that is checked earlier fails, the
/// failure is `InvalidProperty`.
pub proof fn lemma_empty_restriction_rejected(
    seen: Seq<Seq<char>>,
    submission: Submission,
    id: Seq<char>,
    fresh: Seq<char>,
    answers: Seq<Answer>,
)
    requires
        submission.data.interactions matches Some(policy) && policy.restricts_to_nothing(),
    ensures
        run(intake(seen, submission, id, fresh), answers) is Fail,
        submission.fits() && answer(seen, submission.data.nonce.deep_view(), fresh) is Ok
            && !submission.data.is_empty() && submission.flag_intent() is Ok ==> intake(
            seen,
            submission,
            id,
            fresh,
        ) == Outcome::Fail(Error::InvalidProperty),
{
    let first = intake(seen, submission, id, fresh);
    assert(first is Fail);
    lemma_failure_is_final(first->Fail_0, answers);
}

/// A payload without content, attachments and embeds is refused with
/// `EmptyMessage`, unless its nonce is a duplicate.
pub proof fn lemma_empty_payload_rejected(
    seen: Seq<Seq<char>>,
    submission: Submission,
    id: Seq<char>,
    fresh: Seq<char>,
)
    requires
        submission.data.is_empty(),
        submission.fits(),
        answer(seen, submission.data.nonce.deep_view(), fresh) is Ok,
    ensures
        intake(seen, submission, id, fresh) == Outcome::Fail(Error::EmptyMessage),
{
}

/// Whether `outcome` holds no pipeline but one of `submission`.
pub open spec fn all_of(submission: Submission, outcome: Outcome) -> bool {
    match outcome {
        Outcome::Ask(p, _) => p.submission == submission,
        Outcome::Deliver(p) => p.submission == submission,
        Outcome::Fail(_) => true,
    }
}

proof fn lemma_run_of(submission: Submission, outcome: Outcome, answers: Seq<Answer>)
    requires
        all_of(submission, outcome),
    ensures
        all_of(submission, run(outcome, answers)),
    decreases answers.len(),
{
    if answers.len() > 0 {
        match outcome {
            Outcome::Ask(pipeline, _) => {
                lemma_advance_keeps(pipeline, answers[0]);
                lemma_run_of(submission, pipeline.advance(answers[0]), answers.drop_first());
            },
            _ => {},
        }
    }
}

/// Every pipeline of a run holds the submission that was taken in.
pub proof fn lemma_run_keeps_submission(
    seen: Seq<Seq<char>>,
    submission: Submission,
    id: Seq<char>,
    fresh: Seq<char>,
    answers: Seq<Answer>,
)
    ensures
        all_of(submission, run(intake(seen, submission, id, fresh), answers)),
{
    lemma_intake_of(seen, submission, id, fresh);
    lemma_run_of(submission, intake(seen, submission, id, fresh), answers);
}

proof fn lemma_intake_of(seen: Seq<Seq<char>>, submission: Submission, id: Seq<char>, fresh: Seq<char>)
    ensures
        all_of(submission, intake(seen, submission, id, fresh)),
{
    if submission.fits() && answer(seen, submission.data.nonce.deep_view(), fresh) is Ok
        && !submission.data.is_empty() && submission.flag_intent() is Ok && !(
    submission.data.interactions matches Some(policy) && policy.restricts_to_nothing()) {
        let key = answer(seen, submission.data.nonce.deep_view(), fresh)->Ok_0;
        let intent = submission.flag_intent()->Ok_0;
        let first = first_view(submission, id, key, intent);
        lemma_mass_keeps(first);
    }
}

/// A message suppresses notifications exactly when it has flags and bit 0
/// of them is set, which is when they are odd.
pub proof fn lemma_suppression_is_bit_zero(m: Message)
    ensures
        m.spec_has_suppressed_notifications() <==> (m.flags matches Some(flags) && flags % 2 == 1),
        m.flags is None ==> !m.spec_has_suppressed_notifications(),
{
    if let Some(flags) = m.flags {
        lemma_bit_zero_is_parity(flags);
    }
}

/// A request that comes again with the nonce of a request that was taken
/// in fails at intake with `DuplicateRequest`, and leaves the guard as it
/// was: no run of it makes a message. This holds while the guard
/// remembers the nonce, as it does right after the first request.
pub proof fn lemma_duplicate_submission(
    seen: Seq<Seq<char>>,
    window: nat,
    first: Submission,
    second: Submission,
    id: Seq<char>,
    fresh: Seq<char>,
    answers: Seq<Answer>,
)
    requires
        window >= 1,
        first.data.nonce is Some,
        first.data.nonce.deep_view() == second.data.nonce.deep_view(),
        first.fits(),
        second.fits(),
    ensures
        ({
            let between = seen_after_intake(seen, window, first);
            &&& intake(between, second, id, fresh) == Outcome::Fail(Error::DuplicateRequest)
            &&& run(intake(between, second, id, fresh), answers) == Outcome::Fail(
                Error::DuplicateRequest,
            )
            &&& seen_after_intake(between, window, second) == between
        }),
{
    let nonce = first.data.nonce.deep_view()->Some_0;
    let between = seen_after_intake(seen, window, first);
    if answer(seen, Some(nonce), fresh) is Ok {
        lemma_resubmission_fails(seen, window, nonce, fresh);
    }
    lemma_failure_is_final(Error::DuplicateRequest, answers);
}

/// Whether the pipeline is past the narrowing of its mentions.
pub open spec fn binding(stage: Stage) -> bool {
    stage is Attachment || stage is Validation || stage is Media
}

/// Whether the mentions are narrowed to whom a message between people,
/// or a note to self, can reach: they hold no user but a recipient, and
/// no role; a note to self holds no user at all. On a server this says
/// nothing.
pub open spec fn within_reach(p: PipelineView) -> bool {
    match p.submission.channel {
        Channel::DirectMessage { recipients, .. } => p.mentions.roles.len() == 0 && forall|
            u: Seq<char>,
        | #[trigger] p.mentions.users.contains(u) ==> recipients.deep_view().contains(u),
        Channel::Group { recipients, .. } => p.mentions.roles.len() == 0 && forall|u: Seq<char>| #[trigger]
            p.mentions.users.contains(u) ==> recipients.deep_view().contains(u),
        Channel::SavedMessages { .. } => p.mentions.users.len() == 0,
        _ => true,
    }
}

/// Whether no mass mention is left where mass mentions are switched off.
pub open spec fn switched_off(p: PipelineView) -> bool {
    !p.submission.config.mass_mentions_enabled ==> !p.mentions.has_mass_mention()
}

/// What holds of a pipeline between two steps.
pub open spec fn orderly(p: PipelineView) -> bool {
    &&& p.sound()
    &&& binding(p.stage) ==> within_reach(p)
    &&& !(p.stage is Roles) ==> switched_off(p)
    &&& p.stage is Members || p.stage is Visibility ==> p.submission.channel.spec_server() is Some
}

/// What holds of a pipeline that has run through.
pub open spec fn finished(p: PipelineView) -> bool {
    &&& p.sound()
    &&& within_reach(p)
    &&& switched_off(p)
}

/// Whether `outcome` holds no pipeline but an orderly one, or a finished
/// one where it has run through.
pub open spec fn all_orderly(outcome: Outcome) -> bool {
    match outcome {
        Outcome::Ask(p, _) => orderly(p),
        Outcome::Deliver(p) => finished(p),
        Outcome::Fail(_) => true,
    }
}

proof fn lemma_bind_orderly(p: PipelineView)
    requires
        finished(p),
    ensures
        all_orderly(p.enter_bind()),
        forall|i: int| all_orderly(#[trigger] p.ask_attachment(i)),
        forall|i: int| all_orderly(#[trigger] p.ask_validation(i)),
{
}

proof fn lemma_narrow_orderly(p: PipelineView)
    requires
        p.sound(),
        switched_off(p),
    ensures
        all_orderly(p.enter_narrow()),
        forall|i: int| all_orderly(#[trigger] p.ask_reply(i)),
        all_orderly(p.enter_replies()),
{
    match p.submission.channel {
        Channel::DirectMessage { recipients, .. } => {
            lemma_among_recipients(p, recipients.deep_view());
        },
        Channel::Group { recipients, .. } => {
            lemma_among_recipients(p, recipients.deep_view());
        },
        Channel::SavedMessages { .. } => {
            lemma_bind_orderly(PipelineView { mentions: p.mentions.without_users(), ..p });
        },
        _ => {
            lemma_bind_orderly(p);
        },
    }
}

proof fn lemma_among_recipients(p: PipelineView, recipients: Seq<Seq<char>>)
    requires
        p.sound(),
        switched_off(p),
        match p.submission.channel {
            Channel::DirectMessage { recipients: r, .. } => r.deep_view() == recipients,
            Channel::Group { recipients: r, .. } => r.deep_view() == recipients,
            _ => false,
        },
    ensures
        all_orderly(
            (PipelineView { mentions: p.mentions.among_recipients(recipients), ..p }).enter_bind(),
        ),
{
    let next = PipelineView { mentions: p.mentions.among_recipients(recipients), ..p };
    lemma_keep_listed_shape(p.mentions.users, recipients);
    assert forall|u: Seq<char>| #[trigger] next.mentions.users.contains(u) implies recipients.contains(
        u,
    ) by {
        lemma_keep_listed_members(p.mentions.users, recipients, u);
    }
    assert(finished(next));
    lemma_bind_orderly(next);
}

proof fn lemma_mass_orderly(p: PipelineView)
    requires
        p.sound(),
    ensures
        all_orderly(p.enter_mass()),
        all_orderly(p.enter_roles()),
{
    if !p.submission.config.mass_mentions_enabled {
        lemma_narrow_orderly(PipelineView { mentions: p.mentions.without_mass(), ..p });
    } else {
        lemma_narrow_orderly(p);
    }
}

/// Being orderly lasts through every step.
pub proof fn lemma_advance_orderly(p: PipelineView, a: Answer)
    requires
        orderly(p),
    ensures
        all_orderly(p.advance(a)),
{
    match (p.stage, a) {
        (Stage::Roles, Answer::ServerRoles(roles)) => {
            lemma_keep_listed_shape(p.mentions.roles, roles);
            lemma_mass_orderly(PipelineView { mentions: p.mentions.pruned(roles), ..p });
        },
        (Stage::Permissions, Answer::Permissions(_)) => {
            lemma_narrow_orderly(p);
        },
        (Stage::Reply(index), Answer::Found { id, author }) => {
            if index < p.submission.data.reply_intents().len() {
                let intent = p.submission.data.reply_intents()[index as int];
                let next = PipelineView {
                    mentions: if intent.mention && p.submission.allow_mentions {
                        p.mentions.with_user(author)
                    } else {
                        p.mentions
                    },
                    replies: with_id(p.replies, id),
                    ..p
                };
                lemma_with_id_shape(p.mentions.users, author);
                lemma_with_id_shape(p.replies, id);
                lemma_narrow_orderly(next);
            }
        },
        (Stage::Reply(_), Answer::NotFetched(_)) => {
            lemma_narrow_orderly(p);
        },
        (Stage::Members, Answer::Members(members)) => {
            lemma_keep_listed_shape(p.mentions.users, members);
            lemma_bind_orderly(PipelineView { mentions: p.mentions.narrowed(members), ..p });
        },
        (Stage::Visibility, Answer::Visibility(visible)) => {
            lemma_keep_listed_shape(p.mentions.users, visible);
            lemma_bind_orderly(PipelineView { mentions: p.mentions.narrowed(visible), ..p });
        },
        (Stage::Attachment(index), Answer::Attachment(Ok(file))) => {
            lemma_bind_orderly(PipelineView { attachments: p.attachments.push(file), ..p });
        },
        (Stage::Validation(index), Answer::Validation(Ok(_))) => {
            if index < p.submission.data.sendable_embeds().len() {
                let embed = p.submission.data.sendable_embeds()[index as int];
                lemma_bind_orderly(
                    PipelineView {
                        embeds: p.embeds.push(text_embed(embed, None)),
                        ..p
                    },
                );
            }
        },
        (Stage::Media(index), Answer::Attachment(Ok(file))) => {
            if index < p.submission.data.sendable_embeds().len() {
                let embed = p.submission.data.sendable_embeds()[index as int];
                lemma_bind_orderly(
                    PipelineView {
                        embeds: p.embeds.push(text_embed(embed, Some(file))),
                        ..p
                    },
                );
            }
        },
        _ => {},
    }
}

/// A request leaves intake in order.
pub proof fn lemma_intake_orderly(seen: Seq<Seq<char>>, submission: Submission, id: Seq<char>, fresh: Seq<char>)
    ensures
        all_orderly(intake(seen, submission, id, fresh)),
{
    if submission.fits() && answer(seen, submission.data.nonce.deep_view(), fresh) is Ok
        && !submission.data.is_empty() && submission.flag_intent() is Ok && !(
    submission.data.interactions matches Some(policy) && policy.restricts_to_nothing()) {
        let key = answer(seen, submission.data.nonce.deep_view(), fresh)->Ok_0;
        let intent = submission.flag_intent()->Ok_0;
        let first = first_view(submission, id, key, intent);
        if let Some(text) = submission.data.content {
            lemma_mentions_below_distinct(text@, '@', text@.len() as int);
            lemma_mentions_below_distinct(text@, '%', text@.len() as int);
        }
        assert(first.sound());
        lemma_mass_orderly(first);
    }
}

/// Being orderly lasts through every run.
pub proof fn lemma_run_orderly(outcome: Outcome, answers: Seq<Answer>)
    requires
        all_orderly(outcome),
    ensures
        all_orderly(run(outcome, answers)),
    decreases answers.len(),
{
    if answers.len() > 0 {
        match outcome {
            Outcome::Ask(pipeline, _) => {
                lemma_advance_orderly(pipeline, answers[0]);
                lemma_run_orderly(pipeline.advance(answers[0]), answers.drop_first());
            },
            _ => {},
        }
    }
}

/// What holds of every message that a run made, whatever the request
/// held and whatever the collaborators answered. It never mentions both
/// everyone and everyone online, and it is well formed. Each of its lists
/// is absent or holds at least one entry, and none holds an entry twice. A message between people
/// mentions no role and no user but a recipient, and a note to self
/// mentions no user. Where mass mentions are switched off the message
/// mentions no role, nor everyone, nor everyone online.
pub proof fn lemma_made_message(
    seen: Seq<Seq<char>>,
    submission: Submission,
    id: Seq<char>,
    fresh: Seq<char>,
    answers: Seq<Answer>,
    m: Message,
)
    requires
        run(intake(seen, submission, id, fresh), answers) matches Outcome::Deliver(p) && p.makes(m),
    ensures
        m.mentions matches Some(ids) ==> ids.len() > 0,
        m.role_mentions matches Some(ids) ==> ids.len() > 0,
        m.replies matches Some(ids) ==> ids.len() > 0,
        m.attachments matches Some(files) ==> files.len() > 0,
        m.embeds matches Some(embeds) ==> embeds.len() > 0,
        listed(m.mentions).no_duplicates(),
        listed(m.role_mentions).no_duplicates(),
        listed(m.replies).no_duplicates(),
        match submission.channel {
            Channel::DirectMessage { recipients, .. } => m.role_mentions is None && forall|
                u: Seq<char>,
            | #[trigger] listed(m.mentions).contains(u) ==> recipients.deep_view().contains(u),
            Channel::Group { recipients, .. } => m.role_mentions is None && forall|u: Seq<char>| #[trigger]
                listed(m.mentions).contains(u) ==> recipients.deep_view().contains(u),
            Channel::SavedMessages { .. } => m.mentions is None,
            _ => true,
        },
        !submission.config.mass_mentions_enabled ==> m.role_mentions is None && (
        m.flags matches Some(flags) && !bit_set(flags, 1) && !bit_set(flags, 2)),
        m.flags matches Some(flags) && !(bit_set(flags, 1) && bit_set(flags, 2)),
        m.well_formed(),
{
    lemma_intake_settles(seen, submission, id, fresh);
    lemma_run_settled(intake(seen, submission, id, fresh), answers);
    lemma_intake_orderly(seen, submission, id, fresh);
    lemma_run_orderly(intake(seen, submission, id, fresh), answers);
    lemma_run_keeps_submission(seen, submission, id, fresh, answers);
    let p = run(intake(seen, submission, id, fresh), answers)->Deliver_0;
    lemma_flags_of_made_message(p, m);
    assert(listed(m.mentions) =~= p.mentions.users);
    assert(listed(m.role_mentions) =~= p.mentions.roles);
    assert(listed(m.replies) =~= p.replies);
}

/// A message that holds nothing but id, channel, author and a system
/// event may be stored.
pub proof fn lemma_bare_is_well_formed(m: Message)
    requires
        (Message { system: None, ..m }).is_bare(),
    ensures
        m.well_formed(),
{
}

/// No message that a run made mentions both everyone and everyone
/// online, whether text or flags asked for them.
pub proof fn lemma_broadcast_exclusive(
    seen: Seq<Seq<char>>,
    submission: Submission,
    id: Seq<char>,
    fresh: Seq<char>,
    answers: Seq<Answer>,
    m: Message,
)
    requires
        run(intake(seen, submission, id, fresh), answers) matches Outcome::Deliver(p) && p.makes(m),
    ensures
        m.flags matches Some(flags) && !(bit_set(flags, 1) && bit_set(flags, 2)),
{
    lemma_made_message(seen, submission, id, fresh, answers, m);
}

} // verus!
