//! The publication coordinator: a state machine that turns a request into
//! a sequence of questions and orders for the outside world. Every call of
//! [`Pipeline::step`] takes the answer to the last action and gives the
//! next action; the driver performs it and comes back with the answer.

use vstd::prelude::*;
use crate::activity::{award_for, get_trophy_for_post, TriggerTable, TrophyActivityConfig};
use crate::error::PipelineError;
use crate::ids::{
    Actor,
    Community,
    CommunityId,
    CommunityVisibility,
    LanguageId,
    LocalUserId,
    PersonId,
    PostId,
};
use crate::jsonbs::Trophy;
use crate::notification::{announcement, should_notify, Notification, NotificationView};
use crate::post::{
    clone_opt,
    opt_table_view,
    CreatePost,
    CreatePostView,
    Post,
    PostInsertForm,
    PostInsertFormView,
    PostLikeForm,
    PostView,
    Settings,
    SettingsView,
};
use crate::text::opt_view;
use crate::validation::{
    parsed_content_verdict,
    submission_verdict,
    validate_content,
    validate_submission,
};

verus! {

/// What the outside world answers.
#[derive(Clone, Debug, PartialEq, Eq)]
pub enum Event {
    /// The formatter's rendering of the body; nothing for a post without one.
    BodyNormalized(Option<String>),
    /// The formatter refused the body.
    BodyRejected,
    /// Whether the actor is banned from the community.
    BanChecked { banned: bool },
    /// The community, if there is one.
    CommunityFound(Option<Community>),
    /// Whether the actor moderates the community.
    ModeratorChecked { is_moderator: bool },
    /// Whether the community allows the requested language.
    LanguageChecked { allowed: bool },
    /// The language that the actor and the community share, if any.
    DefaultLanguage(Option<LanguageId>),
    /// The stored post, or nothing where storing failed.
    Persisted(Option<Post>),
    /// Whether the link metadata was filled in.
    MetadataEnriched { ok: bool },
    /// Whether the like was stored.
    Liked { ok: bool },
    /// Whether the read marker was stored.
    MarkedRead { ok: bool },
    /// The notification has been handed to a background task. How the task
    /// ends is of no concern to the pipeline: there is no event for it.
    NotificationScheduled,
    /// Whether the award was appended.
    AwardAppended { ok: bool },
}

/// What the pipeline asks of the outside world.
#[derive(Clone, Debug, PartialEq, Eq)]
pub enum Action {
    /// Normalize the body with the formatter.
    NormalizeBody { body: Option<String> },
    /// Look up whether the person is banned from the community.
    CheckBan { person_id: PersonId, community_id: CommunityId },
    /// Look up the community.
    FindCommunity { community_id: CommunityId },
    /// Look up whether the person moderates the community.
    CheckModerator { community_id: CommunityId, person_id: PersonId },
    /// Look up whether the community allows the language.
    CheckLanguage { language_id: LanguageId, community_id: CommunityId },
    /// Work out the language that the account and the community share.
    DefaultLanguage { community_id: CommunityId, local_user_id: LocalUserId },
    /// Store the post.
    Persist { form: PostInsertForm },
    /// Fill in the link metadata of the stored post.
    EnrichMetadata { post: Post, custom_thumbnail: Option<String> },
    /// Store the like.
    Like { like: PostLikeForm },
    /// Mark the post as read by the person.
    MarkRead { person_id: PersonId, post_id: PostId },
    /// Hand the notification to a background task and come back at once.
    ScheduleNotification { notification: Notification },
    /// Append the trophy, which is stamped with the time of the order, to
    /// the account's trophy case.
    AppendAward { local_user_id: LocalUserId, trophy: Trophy },
    /// Build the response for the stored post. The publication is complete.
    Respond { community_id: CommunityId, post_id: PostId },
    /// Report the failure. The publication is over.
    Fail { error: PipelineError },
}

/// A request that has passed the first part of validation.
#[derive(Clone, Debug, PartialEq, Eq)]
pub struct Submission {
    pub request: CreatePost,
    pub actor: Actor,
    pub settings: Settings,
}

/// A validated post that is not stored yet.
#[derive(Clone, Debug, PartialEq, Eq)]
pub struct Draft {
    pub actor: Actor,
    /// What will be stored; its language is the requested one until the
    /// language is resolved.
    pub form: PostInsertForm,
    /// The title as it was submitted.
    pub title: String,
    pub custom_thumbnail: Option<String>,
    pub trophies: Option<TrophyActivityConfig>,
}

/// A stored post whose side effects are under way.
#[derive(Clone, Debug, PartialEq, Eq)]
pub struct Published {
    pub actor: Actor,
    pub community_id: CommunityId,
    pub visibility: CommunityVisibility,
    pub post_id: PostId,
    /// The link of the stored post.
    pub url: Option<String>,
    /// The address of the stored post.
    pub ap_id: String,
    /// The title as it was submitted.
    pub title: String,
    pub trophies: Option<TrophyActivityConfig>,
}

/// The state of one publication: what it waits for, and what it knows.
#[derive(Clone, Debug, PartialEq, Eq)]
pub enum Pipeline {
    AwaitingBody(Submission),
    AwaitingBan(Draft),
    AwaitingCommunity(Draft),
    AwaitingModerator(Draft, CommunityVisibility),
    AwaitingLanguage(Draft, CommunityVisibility),
    AwaitingDefaultLanguage(Draft, CommunityVisibility),
    AwaitingPersist(Draft, CommunityVisibility),
    AwaitingMetadata(Published),
    AwaitingLike(Published),
    AwaitingMarkRead(Published),
    AwaitingSchedule(Published),
    AwaitingAward(Published),
    /// The publication is complete.
    Done(Published),
    /// The publication has failed.
    Failed { error: PipelineError },
}

/// An event as characters.
pub enum EventView {
    BodyNormalized(Option<Seq<char>>),
    BodyRejected,
    BanChecked { banned: bool },
    CommunityFound(Option<Community>),
    ModeratorChecked { is_moderator: bool },
    LanguageChecked { allowed: bool },
    DefaultLanguage(Option<LanguageId>),
    Persisted(Option<PostView>),
    MetadataEnriched { ok: bool },
    Liked { ok: bool },
    MarkedRead { ok: bool },
    NotificationScheduled,
    AwardAppended { ok: bool },
}

/// An action as characters. Of an award it keeps the name: the time of
/// the order is no part of what a publication decides.
pub enum ActionView {
    NormalizeBody { body: Option<Seq<char>> },
    CheckBan { person_id: PersonId, community_id: CommunityId },
    FindCommunity { community_id: CommunityId },
    CheckModerator { community_id: CommunityId, person_id: PersonId },
    CheckLanguage { language_id: LanguageId, community_id: CommunityId },
    DefaultLanguage { community_id: CommunityId, local_user_id: LocalUserId },
    Persist { form: PostInsertFormView },
    EnrichMetadata { post: PostView, custom_thumbnail: Option<Seq<char>> },
    Like { like: PostLikeForm },
    MarkRead { person_id: PersonId, post_id: PostId },
    ScheduleNotification { notification: NotificationView },
    AppendAward { local_user_id: LocalUserId, trophy_name: Seq<char> },
    Respond { community_id: CommunityId, post_id: PostId },
    Fail { error: PipelineError },
}

/// A submission as characters.
pub struct SubmissionView {
    pub request: CreatePostView,
    pub actor: Actor,
    pub settings: SettingsView,
}

/// A draft as characters.
pub struct DraftView {
    pub actor: Actor,
    pub form: PostInsertFormView,
    pub title: Seq<char>,
    pub custom_thumbnail: Option<Seq<char>>,
    pub trophies: Option<TriggerTable>,
}

/// What is known of a stored post, as characters.
pub struct PublishedView {
    pub actor: Actor,
    pub community_id: CommunityId,
    pub visibility: CommunityVisibility,
    pub post_id: PostId,
    pub url: Option<Seq<char>>,
    pub ap_id: Seq<char>,
    pub title: Seq<char>,
    pub trophies: Option<TriggerTable>,
}

/// The state of a publication as characters.
pub enum PipelineView {
    AwaitingBody(SubmissionView),
    AwaitingBan(DraftView),
    AwaitingCommunity(DraftView),
    AwaitingModerator(DraftView, CommunityVisibility),
    AwaitingLanguage(DraftView, CommunityVisibility),
    AwaitingDefaultLanguage(DraftView, CommunityVisibility),
    AwaitingPersist(DraftView, CommunityVisibility),
    AwaitingMetadata(PublishedView),
    AwaitingLike(PublishedView),
    AwaitingMarkRead(PublishedView),
    AwaitingSchedule(PublishedView),
    AwaitingAward(PublishedView),
    Done(PublishedView),
    Failed { error: PipelineError },
}

/// The view of an optional stored post.
pub open spec fn opt_post_view(post: Option<Post>) -> Option<PostView> {
    match post {
        Some(p) => Some(p@),
        None => None,
    }
}

impl View for Event {
    type V = EventView;

    open spec fn view(&self) -> EventView {
        match *self {
            Event::BodyNormalized(body) => EventView::BodyNormalized(opt_view(body)),
            Event::BodyRejected => EventView::BodyRejected,
            Event::BanChecked { banned } => EventView::BanChecked { banned },
            Event::CommunityFound(c) => EventView::CommunityFound(c),
            Event::ModeratorChecked { is_moderator } => EventView::ModeratorChecked {
                is_moderator,
            },
            Event::LanguageChecked { allowed } => EventView::LanguageChecked { allowed },
            Event::DefaultLanguage(l) => EventView::DefaultLanguage(l),
            Event::Persisted(post) => EventView::Persisted(opt_post_view(post)),
            Event::MetadataEnriched { ok } => EventView::MetadataEnriched { ok },
            Event::Liked { ok } => EventView::Liked { ok },
            Event::MarkedRead { ok } => EventView::MarkedRead { ok },
            Event::NotificationScheduled => EventView::NotificationScheduled,
            Event::AwardAppended { ok } => EventView::AwardAppended { ok },
        }
    }
}

impl View for Action {
    type V = ActionView;

    open spec fn view(&self) -> ActionView {
        match *self {
            Action::NormalizeBody { body } => ActionView::NormalizeBody { body: opt_view(body) },
            Action::CheckBan { person_id, community_id } => ActionView::CheckBan {
                person_id,
                community_id,
            },
            Action::FindCommunity { community_id } => ActionView::FindCommunity { community_id },
            Action::CheckModerator { community_id, person_id } => ActionView::CheckModerator {
                community_id,
                person_id,
            },
            Action::CheckLanguage { language_id, community_id } => ActionView::CheckLanguage {
                language_id,
                community_id,
            },
            Action::DefaultLanguage { community_id, local_user_id } => ActionView::DefaultLanguage {
                community_id,
                local_user_id,
            },
            Action::Persist { form } => ActionView::Persist { form: form@ },
            Action::EnrichMetadata { post, custom_thumbnail } => ActionView::EnrichMetadata {
                post: post@,
                custom_thumbnail: opt_view(custom_thumbnail),
            },
            Action::Like { like } => ActionView::Like { like },
            Action::MarkRead { person_id, post_id } => ActionView::MarkRead { person_id, post_id },
            Action::ScheduleNotification { notification } => ActionView::ScheduleNotification {
                notification: notification@,
            },
            Action::AppendAward { local_user_id, trophy } => ActionView::AppendAward {
                local_user_id,
                trophy_name: trophy.name@,
            },
            Action::Respond { community_id, post_id } => ActionView::Respond {
                community_id,
                post_id,
            },
            Action::Fail { error } => ActionView::Fail { error },
        }
    }
}

impl View for Submission {
    type V = SubmissionView;

    open spec fn view(&self) -> SubmissionView {
        SubmissionView { request: self.request@, actor: self.actor, settings: self.settings@ }
    }
}

impl View for Draft {
    type V = DraftView;

    open spec fn view(&self) -> DraftView {
        DraftView {
            actor: self.actor,
            form: self.form@,
            title: self.title@,
            custom_thumbnail: opt_view(self.custom_thumbnail),
            trophies: opt_table_view(self.trophies),
        }
    }
}

impl View for Published {
    type V = PublishedView;

    open spec fn view(&self) -> PublishedView {
        PublishedView {
            actor: self.actor,
            community_id: self.community_id,
            visibility: self.visibility,
            post_id: self.post_id,
            url: opt_view(self.url),
            ap_id: self.ap_id@,
            title: self.title@,
            trophies: opt_table_view(self.trophies),
        }
    }
}

impl View for Pipeline {
    type V = PipelineView;

    open spec fn view(&self) -> PipelineView {
        match *self {
            Pipeline::AwaitingBody(s) => PipelineView::AwaitingBody(s@),
            Pipeline::AwaitingBan(d) => PipelineView::AwaitingBan(d@),
            Pipeline::AwaitingCommunity(d) => PipelineView::AwaitingCommunity(d@),
            Pipeline::AwaitingModerator(d, v) => PipelineView::AwaitingModerator(d@, v),
            Pipeline::AwaitingLanguage(d, v) => PipelineView::AwaitingLanguage(d@, v),
            Pipeline::AwaitingDefaultLanguage(d, v) => PipelineView::AwaitingDefaultLanguage(d@, v),
            Pipeline::AwaitingPersist(d, v) => PipelineView::AwaitingPersist(d@, v),
            Pipeline::AwaitingMetadata(p) => PipelineView::AwaitingMetadata(p@),
            Pipeline::AwaitingLike(p) => PipelineView::AwaitingLike(p@),
            Pipeline::AwaitingMarkRead(p) => PipelineView::AwaitingMarkRead(p@),
            Pipeline::AwaitingSchedule(p) => PipelineView::AwaitingSchedule(p@),
            Pipeline::AwaitingAward(p) => PipelineView::AwaitingAward(p@),
            Pipeline::Done(p) => PipelineView::Done(p@),
            Pipeline::Failed { error } => PipelineView::Failed { error },
        }
    }
}

/// An order to append an award carries a trophy that is stamped with a
/// well-formed time.
pub open spec fn award_stamped(action: Action) -> bool {
    action matches Action::AppendAward { trophy, .. } ==> (trophy.rewarded_at matches Some(t)
        && t.wf())
}

/// The score of the like that an author gives to the own post.
pub const SELF_LIKE_SCORE: i16 = 1;

/// The publication ends with `error`.
pub open spec fn failed(error: PipelineError) -> (PipelineView, ActionView) {
    (PipelineView::Failed { error }, ActionView::Fail { error })
}

/// The award that the title of a stored post earns.
pub open spec fn award_of(p: PublishedView) -> Option<Seq<char>> {
    match p.trophies {
        Some(table) => award_for(table, p.title),
        None => None,
    }
}

/// The draft of a validated request.
pub open spec fn draft_of(
    s: SubmissionView,
    body: Option<Seq<char>>,
    name: Seq<char>,
    url: Option<Seq<char>>,
    custom_thumbnail: Option<Seq<char>>,
) -> DraftView {
    DraftView {
        actor: s.actor,
        form: PostInsertFormView {
            name,
            url,
            body,
            alt_text: s.request.alt_text,
            community_id: s.request.community_id,
            creator_id: s.actor.person_id,
            nsfw: s.request.nsfw,
            language_id: s.request.language_id,
        },
        title: s.request.name,
        custom_thumbnail,
        trophies: s.settings.trophy_activity,
    }
}

/// What is known of a post once it is stored.
pub open spec fn published_of(d: DraftView, visibility: CommunityVisibility, post: PostView) -> PublishedView {
    PublishedView {
        actor: d.actor,
        community_id: d.form.community_id,
        visibility,
        post_id: post.id,
        url: post.url,
        ap_id: post.ap_id,
        title: d.title,
        trophies: d.trophies,
    }
}

/// The first action of a publication: a request that fails the first part
/// of validation is refused, any other has its body normalized.
pub open spec fn start_spec(request: CreatePostView, actor: Actor, settings: SettingsView) -> (
    PipelineView,
    ActionView,
) {
    match submission_verdict(request, settings) {
        Err(error) => failed(error),
        Ok(_) => (
            PipelineView::AwaitingBody(SubmissionView { request, actor, settings }),
            ActionView::NormalizeBody { body: request.body },
        ),
    }
}

/// The normalized body has arrived: the second part of validation decides.
pub open spec fn body_stage(s: SubmissionView, body: Option<Seq<char>>) -> (
    PipelineView,
    ActionView,
) {
    match parsed_content_verdict(s.request, body, s.settings) {
        Err(error) => failed(error),
        Ok(content) => (
            PipelineView::AwaitingBan(
                draft_of(s, body, content.name, content.url, content.custom_thumbnail),
            ),
            ActionView::CheckBan {
                person_id: s.actor.person_id,
                community_id: s.request.community_id,
            },
        ),
    }
}

/// The actor may post: an explicit language is checked against the
/// community, a missing one is filled in from the actor's languages.
pub open spec fn language_stage(d: DraftView, visibility: CommunityVisibility) -> (
    PipelineView,
    ActionView,
) {
    match d.form.language_id {
        Some(language_id) => (
            PipelineView::AwaitingLanguage(d, visibility),
            ActionView::CheckLanguage { language_id, community_id: d.form.community_id },
        ),
        None => (
            PipelineView::AwaitingDefaultLanguage(d, visibility),
            ActionView::DefaultLanguage {
                community_id: d.form.community_id,
                local_user_id: d.actor.local_user_id,
            },
        ),
    }
}

/// The language is resolved: the post is stored.
pub open spec fn persist_stage(d: DraftView, visibility: CommunityVisibility) -> (
    PipelineView,
    ActionView,
) {
    (PipelineView::AwaitingPersist(d, visibility), ActionView::Persist { form: d.form })
}

/// The publication is complete.
pub open spec fn finish(p: PublishedView) -> (PipelineView, ActionView) {
    (
        PipelineView::Done(p),
        ActionView::Respond { community_id: p.community_id, post_id: p.post_id },
    )
}

/// The notification is out of the way: a title that earns an award has it
/// appended, any other completes the publication.
pub open spec fn award_stage(p: PublishedView) -> (PipelineView, ActionView) {
    match award_of(p) {
        Some(trophy_name) => (
            PipelineView::AwaitingAward(p),
            ActionView::AppendAward { local_user_id: p.actor.local_user_id, trophy_name },
        ),
        None => finish(p),
    }
}

/// The author's like and read marker are stored: a post with a link in a
/// public community is announced, any other goes on to the awards.
pub open spec fn notify_stage(p: PublishedView) -> (PipelineView, ActionView) {
    if should_notify(p.url, p.visibility) {
        (
            PipelineView::AwaitingSchedule(p),
            ActionView::ScheduleNotification { notification: announcement(p.ap_id, p.url->0) },
        )
    } else {
        award_stage(p)
    }
}

/// The next state and action of a publication in `state` on the answer
/// `event`. A finished publication stays as it is and repeats its last
/// word; an answer that the state did not ask for fails the publication.
pub open spec fn step_spec(state: PipelineView, event: EventView) -> (PipelineView, ActionView) {
    match (state, event) {
        (PipelineView::Done(p), _) => finish(p),
        (PipelineView::Failed { error }, _) => failed(error),
        (PipelineView::AwaitingBody(s), EventView::BodyRejected) => failed(
            PipelineError::MalformedContent,
        ),
        (PipelineView::AwaitingBody(s), EventView::BodyNormalized(body)) => body_stage(s, body),
        (PipelineView::AwaitingBan(d), EventView::BanChecked { banned }) => if banned {
            failed(PipelineError::ActionBlocked)
        } else {
            (
                PipelineView::AwaitingCommunity(d),
                ActionView::FindCommunity { community_id: d.form.community_id },
            )
        },
        (PipelineView::AwaitingCommunity(d), EventView::CommunityFound(found)) => match found {
            None => failed(PipelineError::CommunityNotFound),
            Some(community) => if community.posting_restricted_to_mods {
                (
                    PipelineView::AwaitingModerator(d, community.visibility),
                    ActionView::CheckModerator {
                        community_id: d.form.community_id,
                        person_id: d.actor.person_id,
                    },
                )
            } else {
                language_stage(d, community.visibility)
            },
        },
        (PipelineView::AwaitingModerator(d, v), EventView::ModeratorChecked { is_moderator }) => {
            if is_moderator {
                language_stage(d, v)
            } else {
                failed(PipelineError::ModsOnlyPosting)
            }
        },
        (PipelineView::AwaitingLanguage(d, v), EventView::LanguageChecked { allowed }) => {
            if allowed {
                persist_stage(d, v)
            } else {
                failed(PipelineError::LanguageNotAllowed)
            }
        },
        (PipelineView::AwaitingDefaultLanguage(d, v), EventView::DefaultLanguage(language_id)) => {
            persist_stage(
                DraftView { form: PostInsertFormView { language_id, ..d.form }, ..d },
                v,
            )
        },
        (PipelineView::AwaitingPersist(d, v), EventView::Persisted(stored)) => match stored {
            None => failed(PipelineError::PersistenceFailed),
            Some(post) => (
                PipelineView::AwaitingMetadata(published_of(d, v, post)),
                ActionView::EnrichMetadata { post, custom_thumbnail: d.custom_thumbnail },
            ),
        },
        (PipelineView::AwaitingMetadata(p), EventView::MetadataEnriched { ok }) => if ok {
            (
                PipelineView::AwaitingLike(p),
                ActionView::Like {
                    like: PostLikeForm {
                        post_id: p.post_id,
                        person_id: p.actor.person_id,
                        score: SELF_LIKE_SCORE,
                    },
                },
            )
        } else {
            failed(PipelineError::MetadataFailed)
        },
        (PipelineView::AwaitingLike(p), EventView::Liked { ok }) => if ok {
            (
                PipelineView::AwaitingMarkRead(p),
                ActionView::MarkRead { person_id: p.actor.person_id, post_id: p.post_id },
            )
        } else {
            failed(PipelineError::SelfEngagementFailed)
        },
        (PipelineView::AwaitingMarkRead(p), EventView::MarkedRead { ok }) => if ok {
            notify_stage(p)
        } else {
            failed(PipelineError::SelfEngagementFailed)
        },
        (PipelineView::AwaitingSchedule(p), EventView::NotificationScheduled) => award_stage(p),
        (PipelineView::AwaitingAward(p), EventView::AwardAppended { ok }) => if ok {
            finish(p)
        } else {
            failed(PipelineError::AwardPersistFailed)
        },
        _ => failed(PipelineError::UnexpectedEvent),
    }
}

/// Ends the publication with `error`.
fn fail(error: PipelineError) -> (r: (Pipeline, Action))
    ensures
        (r.0@, r.1@) == failed(error),
        r.1 is Fail,
{
    (Pipeline::Failed { error }, Action::Fail { error })
}

/// Asks about the language: see [`language_stage`].
fn enter_language_stage(d: Draft, visibility: CommunityVisibility) -> (r: (Pipeline, Action))
    ensures
        (r.0@, r.1@) == language_stage(d@, visibility),
        !(r.1 is AppendAward),
{
    let community_id = d.form.community_id;
    let local_user_id = d.actor.local_user_id;
    match d.form.language_id {
        Some(language_id) => (
            Pipeline::AwaitingLanguage(d, visibility),
            Action::CheckLanguage { language_id, community_id },
        ),
        None => (
            Pipeline::AwaitingDefaultLanguage(d, visibility),
            Action::DefaultLanguage { community_id, local_user_id },
        ),
    }
}

/// Orders the post to be stored: see [`persist_stage`].
fn enter_persist_stage(d: Draft, visibility: CommunityVisibility) -> (r: (Pipeline, Action))
    ensures
        (r.0@, r.1@) == persist_stage(d@, visibility),
        r.1 is Persist,
{
    let form = d.form.clone();
    (Pipeline::AwaitingPersist(d, visibility), Action::Persist { form })
}

/// Completes the publication: see [`finish`].
fn complete(p: Published) -> (r: (Pipeline, Action))
    ensures
        (r.0@, r.1@) == finish(p@),
        r.1 is Respond,
{
    let community_id = p.community_id;
    let post_id = p.post_id;
    (Pipeline::Done(p), Action::Respond { community_id, post_id })
}

/// Evaluates the title against the trigger table: see [`award_stage`].
fn enter_award_stage(p: Published) -> (r: (Pipeline, Action))
    ensures
        (r.0@, r.1@) == award_stage(p@),
        award_stamped(r.1),
{
    let award = match &p.trophies {
        Some(config) => get_trophy_for_post(config, p.title.as_str()),
        None => None,
    };
    match award {
        Some(trophy_name) => {
            let local_user_id = p.actor.local_user_id;
            let trophy = Trophy::new(trophy_name);
            (Pipeline::AwaitingAward(p), Action::AppendAward { local_user_id, trophy })
        },
        None => complete(p),
    }
}

/// Schedules the notification where one is due: see [`notify_stage`].
fn enter_notify_stage(p: Published) -> (r: (Pipeline, Action))
    ensures
        (r.0@, r.1@) == notify_stage(p@),
        award_stamped(r.1),
{
    let target = match p.visibility {
        CommunityVisibility::Public => clone_opt(&p.url),
        CommunityVisibility::Restricted => None,
    };
    match target {
        Some(url) => {
            let notification = Notification::for_post(p.ap_id.clone(), url);
            (Pipeline::AwaitingSchedule(p), Action::ScheduleNotification { notification })
        },
        None => enter_award_stage(p),
    }
}

/// Validates the content once the body is normalized: see [`body_stage`].
fn enter_body_stage(s: Submission, body: Option<String>) -> (r: (Pipeline, Action))
    ensures
        (r.0@, r.1@) == body_stage(s@, opt_view(body)),
        !(r.1 is AppendAward),
{
    match validate_content(&s.request, &body, &s.settings) {
        Err(error) => fail(error),
        Ok(content) => {
            let person_id = s.actor.person_id;
            let community_id = s.request.community_id;
            let form = PostInsertForm {
                name: content.name,
                url: content.url,
                body,
                alt_text: s.request.alt_text,
                community_id,
                creator_id: person_id,
                nsfw: s.request.nsfw,
                language_id: s.request.language_id,
            };
            let draft = Draft {
                actor: s.actor,
                form,
                title: s.request.name,
                custom_thumbnail: content.custom_thumbnail,
                trophies: s.settings.trophy_activity,
            };
            (Pipeline::AwaitingBan(draft), Action::CheckBan { person_id, community_id })
        },
    }
}

/// Takes the answer to the ban lookup.
fn on_ban_checked(d: Draft, banned: bool) -> (r: (Pipeline, Action))
    ensures
        (r.0@, r.1@) == step_spec(PipelineView::AwaitingBan(d@), EventView::BanChecked { banned }),
        !(r.1 is AppendAward),
{
    if banned {
        fail(PipelineError::ActionBlocked)
    } else {
        let community_id = d.form.community_id;
        (Pipeline::AwaitingCommunity(d), Action::FindCommunity { community_id })
    }
}

/// Takes the community that was looked up.
fn on_community_found(d: Draft, found: Option<Community>) -> (r: (Pipeline, Action))
    ensures
        (r.0@, r.1@) == step_spec(
            PipelineView::AwaitingCommunity(d@),
            EventView::CommunityFound(found),
        ),
        !(r.1 is AppendAward),
{
    match found {
        None => fail(PipelineError::CommunityNotFound),
        Some(community) => {
            if community.posting_restricted_to_mods {
                let community_id = d.form.community_id;
                let person_id = d.actor.person_id;
                (
                    Pipeline::AwaitingModerator(d, community.visibility),
                    Action::CheckModerator { community_id, person_id },
                )
            } else {
                enter_language_stage(d, community.visibility)
            }
        },
    }
}

/// Takes the stored post.
fn on_persisted(d: Draft, visibility: CommunityVisibility, stored: Option<Post>) -> (r: (
    Pipeline,
    Action,
))
    ensures
        (r.0@, r.1@) == step_spec(
            PipelineView::AwaitingPersist(d@, visibility),
            EventView::Persisted(opt_post_view(stored)),
        ),
        !(r.1 is AppendAward),
{
    match stored {
        None => fail(PipelineError::PersistenceFailed),
        Some(post) => {
            let published = Published {
                actor: d.actor,
                community_id: d.form.community_id,
                visibility,
                post_id: post.id,
                url: clone_opt(&post.url),
                ap_id: post.ap_id.clone(),
                title: d.title,
                trophies: d.trophies,
            };
            (
                Pipeline::AwaitingMetadata(published),
                Action::EnrichMetadata { post, custom_thumbnail: d.custom_thumbnail },
            )
        },
    }
}

/// Takes the outcome of the enrichment and orders the author's like.
fn on_enriched(p: Published, ok: bool) -> (r: (Pipeline, Action))
    ensures
        (r.0@, r.1@) == step_spec(
            PipelineView::AwaitingMetadata(p@),
            EventView::MetadataEnriched { ok },
        ),
        !(r.1 is AppendAward),
{
    if ok {
        let like = PostLikeForm {
            post_id: p.post_id,
            person_id: p.actor.person_id,
            score: SELF_LIKE_SCORE,
        };
        (Pipeline::AwaitingLike(p), Action::Like { like })
    } else {
        fail(PipelineError::MetadataFailed)
    }
}

/// Takes the outcome of the like and orders the read marker.
fn on_liked(p: Published, ok: bool) -> (r: (Pipeline, Action))
    ensures
        (r.0@, r.1@) == step_spec(PipelineView::AwaitingLike(p@), EventView::Liked { ok }),
        !(r.1 is AppendAward),
{
    if ok {
        let person_id = p.actor.person_id;
        let post_id = p.post_id;
        (Pipeline::AwaitingMarkRead(p), Action::MarkRead { person_id, post_id })
    } else {
        fail(PipelineError::SelfEngagementFailed)
    }
}

/// Begins the publication of `request` on behalf of `actor`: runs the
/// first part of validation and gives the first state and action. The
/// driver performs the action and hands the answer to [`Pipeline::step`],
/// and so on until the action is `Respond` or `Fail`.
pub fn create_post(request: CreatePost, actor: Actor, settings: Settings) -> (r: (Pipeline, Action))
    ensures
        (r.0@, r.1@) == start_spec(request@, actor, settings@),
        !r.1.is_effect(),
{
    match validate_submission(&request, &settings) {
        Err(error) => fail(error),
        Ok(()) => {
            let body = clone_opt(&request.body);
            (
                Pipeline::AwaitingBody(Submission { request, actor, settings }),
                Action::NormalizeBody { body },
            )
        },
    }
}

impl Action {
    /// Whether the action changes something outside.
    pub open spec fn spec_is_effect(&self) -> bool {
        crate::laws::is_effect(self@)
    }

    /// Whether the action changes something outside: see
    /// [`crate::laws::is_effect`].
    #[verifier::when_used_as_spec(spec_is_effect)]
    pub fn is_effect(&self) -> (r: bool)
        ensures
            r == self.spec_is_effect(),
    {
        match self {
            Action::Persist { .. } => true,
            Action::EnrichMetadata { .. } => true,
            Action::Like { .. } => true,
            Action::MarkRead { .. } => true,
            Action::ScheduleNotification { .. } => true,
            Action::AppendAward { .. } => true,
            _ => false,
        }
    }
}

impl Pipeline {
    /// Whether the publication is over, completed or failed.
    pub open spec fn spec_is_finished(&self) -> bool {
        self is Done || self is Failed
    }

    /// Whether the publication is over, completed or failed.
    #[verifier::when_used_as_spec(spec_is_finished)]
    pub fn is_finished(&self) -> (r: bool)
        ensures
            r == self.spec_is_finished(),
    {
        match self {
            Pipeline::Done(_) => true,
            Pipeline::Failed { .. } => true,
            _ => false,
        }
    }

    /// Takes the answer to the last action and gives the next state and
    /// action: see [`step_spec`]. An award that is ordered is stamped with
    /// the time of this call.
    pub fn step(self, event: Event) -> (r: (Pipeline, Action))
        ensures
            (r.0@, r.1@) == step_spec(self@, event@),
            award_stamped(r.1),
    {
        match (self, event) {
            (Pipeline::Done(p), _) => complete(p),
            (Pipeline::Failed { error }, _) => fail(error),
            (Pipeline::AwaitingBody(_), Event::BodyRejected) => fail(
                PipelineError::MalformedContent,
            ),
            (Pipeline::AwaitingBody(s), Event::BodyNormalized(body)) => enter_body_stage(s, body),
            (Pipeline::AwaitingBan(d), Event::BanChecked { banned }) => on_ban_checked(d, banned),
            (Pipeline::AwaitingCommunity(d), Event::CommunityFound(found)) => on_community_found(
                d,
                found,
            ),
            (Pipeline::AwaitingModerator(d, v), Event::ModeratorChecked { is_moderator }) => {
                if is_moderator {
                    enter_language_stage(d, v)
                } else {
                    fail(PipelineError::ModsOnlyPosting)
                }
            },
            (Pipeline::AwaitingLanguage(d, v), Event::LanguageChecked { allowed }) => {
                if allowed {
                    enter_persist_stage(d, v)
                } else {
                    fail(PipelineError::LanguageNotAllowed)
                }
            },
            (Pipeline::AwaitingDefaultLanguage(d, v), Event::DefaultLanguage(language_id)) => {
                let mut d = d;
                d.form.language_id = language_id;
                enter_persist_stage(d, v)
            },
            (Pipeline::AwaitingPersist(d, v), Event::Persisted(stored)) => on_persisted(
                d,
                v,
                stored,
            ),
            (Pipeline::AwaitingMetadata(p), Event::MetadataEnriched { ok }) => on_enriched(p, ok),
            (Pipeline::AwaitingLike(p), Event::Liked { ok }) => on_liked(p, ok),
            (Pipeline::AwaitingMarkRead(p), Event::MarkedRead { ok }) => {
                if ok {
                    enter_notify_stage(p)
                } else {
                    fail(PipelineError::SelfEngagementFailed)
                }
            },
            (Pipeline::AwaitingSchedule(p), Event::NotificationScheduled) => enter_award_stage(p),
            (Pipeline::AwaitingAward(p), Event::AwardAppended { ok }) => {
                if ok {
                    complete(p)
                } else {
                    fail(PipelineError::AwardPersistFailed)
                }
            },
            _ => fail(PipelineError::UnexpectedEvent),
        }
    }
}

} // verus!
