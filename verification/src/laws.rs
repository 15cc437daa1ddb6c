//! What holds of every publication, whatever the outside world answers:
//! which orders a publication gives, in which order, and what it never
//! does.

use vstd::prelude::*;
use crate::activity::award_for;
use crate::error::{ErrorKind, PipelineError};
use crate::ids::{Actor, Community, CommunityVisibility, LanguageId};
use crate::notification::{announcement, should_notify};
use crate::pipeline::{
    award_of,
    language_stage,
    start_spec,
    step_spec,
    ActionView,
    DraftView,
    EventView,
    PipelineView,
    PublishedView,
    SubmissionView,
    SELF_LIKE_SCORE,
};
use crate::post::{CreatePostView, PostInsertFormView, PostLikeForm, SettingsView};
use crate::text::{matches_any, trimmed};
use crate::validation::{honeypot_tripped, parsed_url, title_ok};

verus! {

/// The actions that change something outside: all but the lookups, the
/// formatter and the two last words.
pub open spec fn is_effect(action: ActionView) -> bool {
    ||| action is Persist
    ||| action is EnrichMetadata
    ||| action is Like
    ||| action is MarkRead
    ||| action is ScheduleNotification
    ||| action is AppendAward
}

/// The ledger of effects with `action` entered, if it is one.
pub open spec fn record(ledger: Seq<ActionView>, action: ActionView) -> Seq<ActionView> {
    if is_effect(action) {
        ledger.push(action)
    } else {
        ledger
    }
}

/// The state and the ledger after the publication in `state`, with the
/// effects in `ledger` ordered so far, has been given `events` one by one.
pub open spec fn run(state: PipelineView, ledger: Seq<ActionView>, events: Seq<EventView>) -> (
    PipelineView,
    Seq<ActionView>,
)
    decreases events.len(),
{
    if events.len() == 0 {
        (state, ledger)
    } else {
        let (next, action) = step_spec(state, events[0]);
        run(next, record(ledger, action), events.drop_first())
    }
}

/// The state of the publication of `request` after the answers `events`,
/// and the effects that it has ordered, in order.
pub open spec fn publication(
    request: CreatePostView,
    actor: Actor,
    settings: SettingsView,
    events: Seq<EventView>,
) -> (PipelineView, Seq<ActionView>) {
    let (state, action) = start_spec(request, actor, settings);
    run(state, record(Seq::empty(), action), events)
}

/// The like that an author gives to the own post.
pub open spec fn self_like(p: PublishedView) -> ActionView {
    ActionView::Like {
        like: PostLikeForm {
            post_id: p.post_id,
            person_id: p.actor.person_id,
            score: SELF_LIKE_SCORE,
        },
    }
}

/// The read marker of an author on the own post.
pub open spec fn self_read(p: PublishedView) -> ActionView {
    ActionView::MarkRead { person_id: p.actor.person_id, post_id: p.post_id }
}

/// The form is what validation makes of the request: the title trimmed
/// and within bounds, the link parsed and not blocked, the rest as
/// submitted by an actor who passed the hidden field and the denylist.
pub open spec fn form_of_request(s: SubmissionView, form: PostInsertFormView) -> bool {
    &&& !honeypot_tripped(s.request.honeypot)
    &&& !matches_any(s.request.name, s.settings.slur_denylist)
    &&& title_ok(s.request.name, s.settings.limits)
    &&& form.name == trimmed(s.request.name)
    &&& match s.request.url {
        Some(raw) => form.url is Some && form.url == parsed_url(raw),
        None => form.url is None,
    }
    &&& form.url matches Some(u) ==> !matches_any(u, s.settings.url_blocklist)
    &&& form.alt_text == s.request.alt_text
    &&& form.alt_text matches Some(alt) ==> alt.len() <= s.settings.limits.alt_text_max
    &&& form.body matches Some(body) ==> body.len() <= s.settings.limits.body_max
    &&& form.community_id == s.request.community_id
    &&& form.creator_id == s.actor.person_id
    &&& form.nsfw == s.request.nsfw
}

/// The draft belongs to the request.
pub open spec fn draft_of_request(s: SubmissionView, d: DraftView) -> bool {
    &&& form_of_request(s, d.form)
    &&& d.actor == s.actor
    &&& d.title == s.request.name
    &&& d.trophies == s.settings.trophy_activity
}

/// The stored post belongs to the request.
pub open spec fn published_of_request(s: SubmissionView, p: PublishedView) -> bool {
    &&& p.actor == s.actor
    &&& p.community_id == s.request.community_id
    &&& p.title == s.request.name
    &&& p.trophies == s.settings.trophy_activity
}

/// The ledger begins with the order to store a form made of the request
/// and the order to enrich the post that came back.
pub open spec fn stored(s: SubmissionView, p: PublishedView, ledger: Seq<ActionView>) -> bool {
    &&& published_of_request(s, p)
    &&& ledger.len() >= 2
    &&& ledger[0] matches ActionView::Persist { form } && form_of_request(s, form)
    &&& ledger[1] matches ActionView::EnrichMetadata { post, .. } && post.id == p.post_id
        && post.url == p.url && post.ap_id == p.ap_id
}

/// The ledger begins with storing, enriching, the author's like and the
/// author's read marker, in this order.
pub open spec fn engaged(s: SubmissionView, p: PublishedView, ledger: Seq<ActionView>) -> bool {
    &&& stored(s, p, ledger)
    &&& ledger.len() >= 4
    &&& ledger[2] == self_like(p)
    &&& ledger[3] == self_read(p)
}

/// How many notifications the post is due: one or none.
pub open spec fn notifications_due(p: PublishedView) -> int {
    if should_notify(p.url, p.visibility) {
        1
    } else {
        0
    }
}

/// How many awards the post is due: one or none.
pub open spec fn awards_due(p: PublishedView) -> int {
    if award_of(p) is Some {
        1
    } else {
        0
    }
}

/// The ledger of a post whose side effects have all been ordered: store,
/// enrich, like, read marker, then the notification if one is due, then
/// the award if one is due, and nothing else.
pub open spec fn settled(s: SubmissionView, p: PublishedView, ledger: Seq<ActionView>) -> bool {
    &&& engaged(s, p, ledger)
    &&& ledger.len() == 4 + notifications_due(p) + awards_due(p)
    &&& should_notify(p.url, p.visibility) ==> ledger[4] == ActionView::ScheduleNotification {
        notification: announcement(p.ap_id, p.url->0),
    }
    &&& award_of(p) matches Some(trophy_name) ==> ledger[4 + notifications_due(p)]
        == ActionView::AppendAward { local_user_id: p.actor.local_user_id, trophy_name }
}

/// The order of effects that no publication leaves: first the post is
/// stored, with a form made of the request; then it is enriched; then the
/// author likes it, with score +1; then the author's read marker is set;
/// then a notification may be scheduled; then an award may be appended.
/// Nothing is ordered twice and nothing else is ordered.
pub open spec fn well_ordered(s: SubmissionView, ledger: Seq<ActionView>) -> bool {
    &&& ledger.len() <= 6
    &&& ledger.len() > 0 ==> (ledger[0] matches ActionView::Persist { form } && form_of_request(
        s,
        form,
    ))
    &&& ledger.len() > 1 ==> ledger[1] is EnrichMetadata
    &&& ledger.len() > 2 ==> ledger[2] == ActionView::Like {
        like: PostLikeForm {
            post_id: ledger[1]->post.id,
            person_id: s.actor.person_id,
            score: SELF_LIKE_SCORE,
        },
    }
    &&& ledger.len() > 3 ==> ledger[3] == ActionView::MarkRead {
        person_id: s.actor.person_id,
        post_id: ledger[1]->post.id,
    }
    &&& ledger.len() > 4 ==> (ledger[4] is ScheduleNotification || ledger[4] is AppendAward)
    &&& ledger.len() > 5 ==> (ledger[4] is ScheduleNotification && ledger[5] is AppendAward)
}

/// The failures that come before anything is stored.
pub open spec fn precedes_storage(error: PipelineError) -> bool {
    ||| error.kind() == ErrorKind::Validation
    ||| error.kind() == ErrorKind::Authorization
    ||| error.kind() == ErrorKind::Policy
    ||| error.kind() == ErrorKind::Lookup
}

/// What holds of the state and the ledger of the publication of the
/// request `s` at every moment.
pub open spec fn consistent(s: SubmissionView, state: PipelineView, ledger: Seq<ActionView>) -> bool {
    &&& well_ordered(s, ledger)
    &&& match state {
        PipelineView::AwaitingBody(submission) => {
            &&& submission == s
            &&& !honeypot_tripped(s.request.honeypot)
            &&& !matches_any(s.request.name, s.settings.slur_denylist)
            &&& ledger.len() == 0
        },
        PipelineView::AwaitingBan(d)
        | PipelineView::AwaitingCommunity(d)
        | PipelineView::AwaitingModerator(d, _)
        | PipelineView::AwaitingLanguage(d, _)
        | PipelineView::AwaitingDefaultLanguage(d, _) => {
            &&& draft_of_request(s, d)
            &&& ledger.len() == 0
        },
        PipelineView::AwaitingPersist(d, _) => {
            &&& draft_of_request(s, d)
            &&& ledger.len() == 1
            &&& ledger[0] == ActionView::Persist { form: d.form }
        },
        PipelineView::AwaitingMetadata(p) => {
            &&& stored(s, p, ledger)
            &&& ledger.len() == 2
        },
        PipelineView::AwaitingLike(p) => {
            &&& stored(s, p, ledger)
            &&& ledger.len() == 3
            &&& ledger[2] == self_like(p)
        },
        PipelineView::AwaitingMarkRead(p) => {
            &&& engaged(s, p, ledger)
            &&& ledger.len() == 4
        },
        PipelineView::AwaitingSchedule(p) => {
            &&& engaged(s, p, ledger)
            &&& should_notify(p.url, p.visibility)
            &&& ledger.len() == 5
            &&& ledger[4] == ActionView::ScheduleNotification {
                notification: announcement(p.ap_id, p.url->0),
            }
        },
        PipelineView::AwaitingAward(p) => {
            &&& settled(s, p, ledger)
            &&& award_of(p) is Some
        },
        PipelineView::Done(p) => settled(s, p, ledger),
        PipelineView::Failed { error } => {
            &&& precedes_storage(error) ==> ledger.len() == 0
            &&& error == PipelineError::PersistenceFailed ==> ledger.len() == 1
        },
    }
}

/// One step keeps the state and the ledger consistent.
pub proof fn lemma_step_consistent(
    s: SubmissionView,
    state: PipelineView,
    ledger: Seq<ActionView>,
    event: EventView,
)
    requires
        consistent(s, state, ledger),
    ensures
        consistent(s, step_spec(state, event).0, record(ledger, step_spec(state, event).1)),
{
}

/// Any number of steps keeps the state and the ledger consistent.
pub proof fn lemma_run_consistent(
    s: SubmissionView,
    state: PipelineView,
    ledger: Seq<ActionView>,
    events: Seq<EventView>,
)
    requires
        consistent(s, state, ledger),
    ensures
        consistent(s, run(state, ledger, events).0, run(state, ledger, events).1),
    decreases events.len(),
{
    if events.len() > 0 {
        let (next, action) = step_spec(state, events[0]);
        lemma_step_consistent(s, state, ledger, events[0]);
        lemma_run_consistent(s, next, record(ledger, action), events.drop_first());
    }
}

/// Every publication is consistent at every moment, whatever the request
/// and whatever the outside world answers.
pub proof fn lemma_publication_consistent(
    request: CreatePostView,
    actor: Actor,
    settings: SettingsView,
    events: Seq<EventView>,
)
    ensures
        consistent(
            SubmissionView { request, actor, settings },
            publication(request, actor, settings, events).0,
            publication(request, actor, settings, events).1,
        ),
{
    let s = SubmissionView { request, actor, settings };
    let (state, action) = start_spec(request, actor, settings);
    lemma_run_consistent(s, state, record(Seq::empty(), action), events);
}

/// A failed publication stays failed and orders nothing more.
pub proof fn lemma_failed_is_final(
    error: PipelineError,
    ledger: Seq<ActionView>,
    events: Seq<EventView>,
)
    ensures
        run(PipelineView::Failed { error }, ledger, events) == (
            PipelineView::Failed { error },
            ledger,
        ),
    decreases events.len(),
{
    if events.len() > 0 {
        lemma_failed_is_final(error, ledger, events.drop_first());
    }
}

/// A completed publication stays completed and orders nothing more.
pub proof fn lemma_done_is_final(p: PublishedView, ledger: Seq<ActionView>, events: Seq<EventView>)
    ensures
        run(PipelineView::Done(p), ledger, events) == (PipelineView::Done(p), ledger),
    decreases events.len(),
{
    if events.len() > 0 {
        lemma_done_is_final(p, ledger, events.drop_first());
    }
}

/// The effects of every publication, completed, failed or under way, come
/// in the one order: see [`well_ordered`]. In particular whatever is
/// stored was made of the request by validation.
pub proof fn lemma_effects_in_order(
    request: CreatePostView,
    actor: Actor,
    settings: SettingsView,
    events: Seq<EventView>,
)
    ensures
        well_ordered(
            SubmissionView { request, actor, settings },
            publication(request, actor, settings, events).1,
        ),
{
    lemma_publication_consistent(request, actor, settings, events);
}

/// A publication that fails on validation, authorization, policy or a
/// missing record has changed nothing; one that fails on storing has
/// ordered the storing and nothing else.
pub proof fn lemma_early_failures_change_nothing(
    request: CreatePostView,
    actor: Actor,
    settings: SettingsView,
    events: Seq<EventView>,
)
    ensures
        publication(request, actor, settings, events).0 matches PipelineView::Failed { error } ==> {
            &&& precedes_storage(error) ==> publication(request, actor, settings, events).1.len()
                == 0
            &&& error == PipelineError::PersistenceFailed ==> publication(
                request,
                actor,
                settings,
                events,
            ).1.len() == 1
        },
{
    lemma_publication_consistent(request, actor, settings, events);
}

/// A request whose hidden field holds anything fails as spam, and nothing
/// is stored, liked, marked or awarded, whatever the rest of the request
/// and whatever is answered afterwards.
pub proof fn lemma_honeypot_rejected(
    request: CreatePostView,
    actor: Actor,
    settings: SettingsView,
    events: Seq<EventView>,
)
    requires
        honeypot_tripped(request.honeypot),
    ensures
        publication(request, actor, settings, events) == (
            PipelineView::Failed { error: PipelineError::SpamRejected },
            Seq::<ActionView>::empty(),
        ),
{
    lemma_failed_is_final(PipelineError::SpamRejected, Seq::empty(), events);
}

/// The link of the request is a URL that contains a blocklisted text.
pub open spec fn link_blocked(request: CreatePostView, settings: SettingsView) -> bool {
    request.url matches Some(raw) && parsed_url(raw) matches Some(u) && matches_any(
        u,
        settings.url_blocklist,
    )
}

/// A request whose link is blocked is never stored and never completes:
/// no effect is ordered, and at the first answer at the latest the
/// publication has failed.
pub proof fn lemma_blocked_url_never_stored(
    request: CreatePostView,
    actor: Actor,
    settings: SettingsView,
    events: Seq<EventView>,
)
    requires
        link_blocked(request, settings),
    ensures
        publication(request, actor, settings, events).1.len() == 0,
        !(publication(request, actor, settings, events).0 is Done),
        events.len() > 0 ==> publication(request, actor, settings, events).0 is Failed,
{
    lemma_publication_consistent(request, actor, settings, events);
    let (state, action) = start_spec(request, actor, settings);
    if state is Failed {
        lemma_failed_is_final(state->error, Seq::empty(), events);
    } else if events.len() > 0 {
        let (next, _) = step_spec(state, events[0]);
        lemma_failed_is_final(next->error, Seq::empty(), events.drop_first());
    }
}

/// A request that passes the hidden field, the denylist, the formatter and
/// the title rule, and whose link is blocked, fails with `BlockedUrl`.
pub proof fn lemma_blocked_url_rejected(
    request: CreatePostView,
    actor: Actor,
    settings: SettingsView,
    body: Option<Seq<char>>,
    rest: Seq<EventView>,
)
    requires
        !honeypot_tripped(request.honeypot),
        !matches_any(request.name, settings.slur_denylist),
        title_ok(request.name, settings.limits),
        link_blocked(request, settings),
    ensures
        publication(request, actor, settings, seq![EventView::BodyNormalized(body)] + rest) == (
            PipelineView::Failed { error: PipelineError::BlockedUrl },
            Seq::<ActionView>::empty(),
        ),
{
    let events = seq![EventView::BodyNormalized(body)] + rest;
    assert(events.drop_first() =~= rest);
    lemma_failed_is_final(PipelineError::BlockedUrl, Seq::empty(), rest);
}

/// Every completed publication has ordered exactly one like, of the
/// stored post by the author with score +1, and exactly one read marker,
/// of the author on the stored post, the like before the marker.
pub proof fn lemma_self_engagement(
    request: CreatePostView,
    actor: Actor,
    settings: SettingsView,
    events: Seq<EventView>,
)
    ensures
        publication(request, actor, settings, events).0 matches PipelineView::Done(p) ==> ({
            let ledger = publication(request, actor, settings, events).1;
            &&& p.actor == actor
            &&& ledger.len() >= 4
            &&& ledger[1] matches ActionView::EnrichMetadata { post, .. } && post.id == p.post_id
            &&& ledger[2] == ActionView::Like {
                like: PostLikeForm { post_id: p.post_id, person_id: actor.person_id, score: 1 },
            }
            &&& ledger[3] == ActionView::MarkRead { person_id: actor.person_id, post_id: p.post_id }
            &&& forall|k: int| 0 <= k < ledger.len() && #[trigger] ledger[k] is Like ==> k == 2
            &&& forall|k: int| 0 <= k < ledger.len() && #[trigger] ledger[k] is MarkRead ==> k == 3
        }),
{
    lemma_publication_consistent(request, actor, settings, events);
}

/// In every publication, completed or not, a like is the author's like
/// with score +1, there is at most one, and a read marker is never ordered
/// without the like before it.
pub proof fn lemma_read_marker_follows_like(
    request: CreatePostView,
    actor: Actor,
    settings: SettingsView,
    events: Seq<EventView>,
)
    ensures
        ({
            let ledger = publication(request, actor, settings, events).1;
            &&& forall|k: int|
                0 <= k < ledger.len() && #[trigger] ledger[k] is Like ==> k == 2 && ledger[k]->like
                    == PostLikeForm {
                    post_id: ledger[1]->post.id,
                    person_id: actor.person_id,
                    score: 1,
                }
            &&& forall|k: int|
                0 <= k < ledger.len() && #[trigger] ledger[k] is MarkRead ==> k == 3 && ledger[2]
                    is Like
        }),
{
    lemma_publication_consistent(request, actor, settings, events);
}

/// A step schedules a notification exactly when it takes the news that
/// the read marker is stored, for a post with a link in a public
/// community; the notification then announces that link from the post's
/// address and is marked as checked.
pub proof fn lemma_notification_step(state: PipelineView, event: EventView)
    ensures
        step_spec(state, event).1 is ScheduleNotification <==> (state matches PipelineView::AwaitingMarkRead(p)
            && event == EventView::MarkedRead { ok: true } && should_notify(p.url, p.visibility)),
        step_spec(state, event).1 matches ActionView::ScheduleNotification { notification }
            ==> state matches PipelineView::AwaitingMarkRead(p) && notification == announcement(
            p.ap_id,
            p.url->0,
        ),
{
}

/// A completed publication has scheduled a notification if and only if
/// the stored post carries a link and the community is public; it has
/// scheduled at most one.
pub proof fn lemma_notification_when_due(
    request: CreatePostView,
    actor: Actor,
    settings: SettingsView,
    events: Seq<EventView>,
)
    ensures
        publication(request, actor, settings, events).0 matches PipelineView::Done(p) ==> ({
            let ledger = publication(request, actor, settings, events).1;
            &&& ledger[1] matches ActionView::EnrichMetadata { post, .. } && post.url == p.url
            &&& should_notify(p.url, p.visibility) <==> exists|k: int|
                0 <= k < ledger.len() && #[trigger] ledger[k] is ScheduleNotification
            &&& forall|k: int|
                0 <= k < ledger.len() && #[trigger] ledger[k] is ScheduleNotification ==> k == 4
                    && ledger[k] == ActionView::ScheduleNotification {
                    notification: announcement(p.ap_id, p.url->0),
                }
        }),
{
    lemma_publication_consistent(request, actor, settings, events);
}

/// A completed publication has appended an award if and only if the
/// title earns one under the site's trigger table: then exactly one, with
/// the name the table gives, to the author's account, as its last effect.
pub proof fn lemma_award_when_earned(
    request: CreatePostView,
    actor: Actor,
    settings: SettingsView,
    events: Seq<EventView>,
)
    ensures
        publication(request, actor, settings, events).0 matches PipelineView::Done(p) ==> ({
            let ledger = publication(request, actor, settings, events).1;
            let earned = match settings.trophy_activity {
                Some(table) => award_for(table, request.name),
                None => None,
            };
            &&& award_of(p) == earned
            &&& earned is Some <==> exists|k: int|
                0 <= k < ledger.len() && #[trigger] ledger[k] is AppendAward
            &&& forall|k: int|
                0 <= k < ledger.len() && #[trigger] ledger[k] is AppendAward ==> k == ledger.len()
                    - 1 && earned is Some && ledger[k] == ActionView::AppendAward {
                    local_user_id: actor.local_user_id,
                    trophy_name: earned->0,
                }
        }),
{
    lemma_publication_consistent(request, actor, settings, events);
}

/// Awards are not deduplicated: two completed publications by one author
/// whose titles earn the same award each order it to be appended, so that
/// the trophy case receives it twice.
pub proof fn lemma_awards_not_deduplicated(
    first: CreatePostView,
    second: CreatePostView,
    actor: Actor,
    settings: SettingsView,
    first_events: Seq<EventView>,
    second_events: Seq<EventView>,
    trophy_name: Seq<char>,
)
    requires
        settings.trophy_activity matches Some(table) && award_for(table, first.name) == Some(
            trophy_name,
        ) && award_for(table, second.name) == Some(trophy_name),
        publication(first, actor, settings, first_events).0 is Done,
        publication(second, actor, settings, second_events).0 is Done,
    ensures
        publication(first, actor, settings, first_events).1.last() == (ActionView::AppendAward {
            local_user_id: actor.local_user_id,
            trophy_name,
        }),
        publication(second, actor, settings, second_events).1.last() == (ActionView::AppendAward {
            local_user_id: actor.local_user_id,
            trophy_name,
        }),
{
    lemma_publication_consistent(first, actor, settings, first_events);
    lemma_publication_consistent(second, actor, settings, second_events);
}

/// The moderation guard: a banned actor is blocked, whatever the
/// community is like and before it is even looked up; an actor who is not
/// banned is refused only where posting is restricted to moderators and
/// the actor is none; anyone else goes on to the language.
pub proof fn lemma_moderation_guard(
    d: DraftView,
    ledger: Seq<ActionView>,
    banned: bool,
    found: Community,
    is_moderator: bool,
    rest: Seq<EventView>,
)
    ensures
        banned ==> run(
            PipelineView::AwaitingBan(d),
            ledger,
            seq![EventView::BanChecked { banned }] + rest,
        ) == (PipelineView::Failed { error: PipelineError::ActionBlocked }, ledger),
        !banned && found.posting_restricted_to_mods && !is_moderator ==> run(
            PipelineView::AwaitingBan(d),
            ledger,
            seq![
                EventView::BanChecked { banned },
                EventView::CommunityFound(Some(found)),
                EventView::ModeratorChecked { is_moderator },
            ] + rest,
        ) == (PipelineView::Failed { error: PipelineError::ModsOnlyPosting }, ledger),
        !banned && found.posting_restricted_to_mods && is_moderator ==> run(
            PipelineView::AwaitingBan(d),
            ledger,
            seq![
                EventView::BanChecked { banned },
                EventView::CommunityFound(Some(found)),
                EventView::ModeratorChecked { is_moderator },
            ] + rest,
        ) == run(
            language_stage(d, found.visibility).0,
            ledger,
            rest,
        ),
        !banned && !found.posting_restricted_to_mods ==> run(
            PipelineView::AwaitingBan(d),
            ledger,
            seq![EventView::BanChecked { banned }, EventView::CommunityFound(Some(found))] + rest,
        ) == run(
            language_stage(d, found.visibility).0,
            ledger,
            rest,
        ),
{
    reveal_with_fuel(run, 4);
    let ban = EventView::BanChecked { banned };
    let community = EventView::CommunityFound(Some(found));
    let moderator = EventView::ModeratorChecked { is_moderator };
    let one = seq![ban] + rest;
    let two = seq![ban, community] + rest;
    let three = seq![ban, community, moderator] + rest;
    assert(one.drop_first() =~= rest);
    assert(two.drop_first() =~= seq![community] + rest);
    assert((seq![community] + rest).drop_first() =~= rest);
    assert(three.drop_first() =~= seq![community, moderator] + rest);
    assert((seq![community, moderator] + rest).drop_first() =~= seq![moderator] + rest);
    assert((seq![moderator] + rest).drop_first() =~= rest);
    if banned {
        lemma_failed_is_final(PipelineError::ActionBlocked, ledger, rest);
    } else if found.posting_restricted_to_mods && !is_moderator {
        lemma_failed_is_final(PipelineError::ModsOnlyPosting, ledger, rest);
    }
}

/// The language is unset or one of `allowed`.
pub open spec fn language_within(language_id: Option<LanguageId>, allowed: Set<LanguageId>) -> bool {
    language_id matches Some(l) ==> allowed.contains(l)
}

/// Every form that the ledger orders to be stored has a language that is
/// unset or one of `allowed`.
pub open spec fn stored_language_within(ledger: Seq<ActionView>, allowed: Set<LanguageId>) -> bool {
    forall|k: int|
        0 <= k < ledger.len() ==> (#[trigger] ledger[k] matches ActionView::Persist { form }
            ==> language_within(form.language_id, allowed))
}

/// The answers about languages are true of a community that allows the
/// languages `allowed`: a default is one of them or unset, and the
/// requested language is confirmed only if it is one of them.
pub open spec fn language_answers_true(
    requested: Option<LanguageId>,
    allowed: Set<LanguageId>,
    events: Seq<EventView>,
) -> bool {
    forall|k: int|
        0 <= k < events.len() ==> language_answer_true(requested, allowed, #[trigger] events[k])
}

/// One answer is true of a community that allows the languages `allowed`.
pub open spec fn language_answer_true(
    requested: Option<LanguageId>,
    allowed: Set<LanguageId>,
    event: EventView,
) -> bool {
    &&& event matches EventView::DefaultLanguage(default) ==> language_within(default, allowed)
    &&& event == (EventView::LanguageChecked { allowed: true }) ==> language_within(
        requested,
        allowed,
    )
}

/// Until the language is resolved the draft keeps the requested one, and
/// nothing stored has a language outside `allowed`.
pub open spec fn language_pending(
    requested: Option<LanguageId>,
    allowed: Set<LanguageId>,
    state: PipelineView,
    ledger: Seq<ActionView>,
) -> bool {
    &&& stored_language_within(ledger, allowed)
    &&& match state {
        PipelineView::AwaitingBody(s) => s.request.language_id == requested,
        PipelineView::AwaitingBan(d)
        | PipelineView::AwaitingCommunity(d)
        | PipelineView::AwaitingModerator(d, _)
        | PipelineView::AwaitingLanguage(d, _)
        | PipelineView::AwaitingDefaultLanguage(d, _) => d.form.language_id == requested,
        _ => true,
    }
}

proof fn lemma_run_language(
    requested: Option<LanguageId>,
    allowed: Set<LanguageId>,
    state: PipelineView,
    ledger: Seq<ActionView>,
    events: Seq<EventView>,
)
    requires
        language_pending(requested, allowed, state, ledger),
        language_answers_true(requested, allowed, events),
    ensures
        stored_language_within(run(state, ledger, events).1, allowed),
    decreases events.len(),
{
    if events.len() > 0 {
        let (next, action) = step_spec(state, events[0]);
        let rest = events.drop_first();
        assert forall|k: int| 0 <= k < rest.len() implies language_answer_true(
            requested,
            allowed,
            #[trigger] rest[k],
        ) by {}
        lemma_run_language(requested, allowed, next, record(ledger, action), rest);
    }
}

/// The language of whatever is stored is unset or allowed by the
/// community, given true answers: an explicit language is stored only once
/// the community has confirmed it, and a default is stored as it came.
pub proof fn lemma_resolved_language_allowed(
    request: CreatePostView,
    actor: Actor,
    settings: SettingsView,
    events: Seq<EventView>,
    allowed: Set<LanguageId>,
)
    requires
        language_answers_true(request.language_id, allowed, events),
    ensures
        stored_language_within(publication(request, actor, settings, events).1, allowed),
{
    let (state, action) = start_spec(request, actor, settings);
    lemma_run_language(
        request.language_id,
        allowed,
        state,
        record(Seq::empty(), action),
        events,
    );
}

/// A request without a language is stored with the default as it came: if
/// every default that is answered is unset or allowed by the community,
/// the stored language is unset or allowed.
pub proof fn lemma_default_language_allowed(
    request: CreatePostView,
    actor: Actor,
    settings: SettingsView,
    events: Seq<EventView>,
    allowed: Set<LanguageId>,
)
    requires
        request.language_id is None,
        forall|k: int|
            0 <= k < events.len() ==> (#[trigger] events[k] matches EventView::DefaultLanguage(
                default,
            ) ==> language_within(default, allowed)),
    ensures
        stored_language_within(publication(request, actor, settings, events).1, allowed),
{
    lemma_resolved_language_allowed(request, actor, settings, events, allowed);
}

/// No notification is in the ledger.
pub open spec fn nothing_scheduled(ledger: Seq<ActionView>) -> bool {
    forall|k: int| 0 <= k < ledger.len() ==> !(#[trigger] ledger[k] is ScheduleNotification)
}

/// Every community that is answered is restricted.
pub open spec fn communities_restricted(events: Seq<EventView>) -> bool {
    forall|k: int|
        0 <= k < events.len() ==> (#[trigger] events[k] matches EventView::CommunityFound(
            Some(community),
        ) ==> community.visibility == CommunityVisibility::Restricted)
}

/// Every stored post that is answered carries no link.
pub open spec fn posts_linkless(events: Seq<EventView>) -> bool {
    forall|k: int|
        0 <= k < events.len() ==> (#[trigger] events[k] matches EventView::Persisted(Some(post))
            ==> post.url is None)
}

/// The community, where the state knows it, is restricted.
pub open spec fn knows_restricted(state: PipelineView) -> bool {
    match state {
        PipelineView::AwaitingModerator(_, v)
        | PipelineView::AwaitingLanguage(_, v)
        | PipelineView::AwaitingDefaultLanguage(_, v)
        | PipelineView::AwaitingPersist(_, v) => v == CommunityVisibility::Restricted,
        PipelineView::AwaitingMetadata(p)
        | PipelineView::AwaitingLike(p)
        | PipelineView::AwaitingMarkRead(p)
        | PipelineView::AwaitingSchedule(p)
        | PipelineView::AwaitingAward(p)
        | PipelineView::Done(p) => p.visibility == CommunityVisibility::Restricted,
        _ => true,
    }
}

/// The stored post, where the state knows it, carries no link.
pub open spec fn knows_linkless(state: PipelineView) -> bool {
    match state {
        PipelineView::AwaitingMetadata(p)
        | PipelineView::AwaitingLike(p)
        | PipelineView::AwaitingMarkRead(p)
        | PipelineView::AwaitingSchedule(p)
        | PipelineView::AwaitingAward(p)
        | PipelineView::Done(p) => p.url is None,
        _ => true,
    }
}

proof fn lemma_run_restricted(state: PipelineView, ledger: Seq<ActionView>, events: Seq<EventView>)
    requires
        knows_restricted(state),
        nothing_scheduled(ledger),
        communities_restricted(events),
    ensures
        nothing_scheduled(run(state, ledger, events).1),
    decreases events.len(),
{
    if events.len() > 0 {
        let (next, action) = step_spec(state, events[0]);
        let rest = events.drop_first();
        assert forall|k: int| 0 <= k < rest.len() implies (#[trigger] rest[k] matches EventView::CommunityFound(
            Some(community),
        ) ==> community.visibility == CommunityVisibility::Restricted) by {}
        lemma_run_restricted(next, record(ledger, action), rest);
    }
}

proof fn lemma_run_linkless(state: PipelineView, ledger: Seq<ActionView>, events: Seq<EventView>)
    requires
        knows_linkless(state),
        nothing_scheduled(ledger),
        posts_linkless(events),
    ensures
        nothing_scheduled(run(state, ledger, events).1),
    decreases events.len(),
{
    if events.len() > 0 {
        let (next, action) = step_spec(state, events[0]);
        let rest = events.drop_first();
        assert forall|k: int| 0 <= k < rest.len() implies (#[trigger] rest[k] matches EventView::Persisted(
            Some(post),
        ) ==> post.url is None) by {}
        lemma_run_linkless(next, record(ledger, action), rest);
    }
}

/// In a restricted community nothing is announced: no publication,
/// completed or not, with a link or without, schedules a notification.
pub proof fn lemma_restricted_never_notified(
    request: CreatePostView,
    actor: Actor,
    settings: SettingsView,
    events: Seq<EventView>,
)
    requires
        communities_restricted(events),
    ensures
        nothing_scheduled(publication(request, actor, settings, events).1),
{
    let (state, action) = start_spec(request, actor, settings);
    lemma_run_restricted(state, record(Seq::empty(), action), events);
}

/// A post without a link is never announced, whatever the community.
pub proof fn lemma_linkless_never_notified(
    request: CreatePostView,
    actor: Actor,
    settings: SettingsView,
    events: Seq<EventView>,
)
    requires
        posts_linkless(events),
    ensures
        nothing_scheduled(publication(request, actor, settings, events).1),
{
    let (state, action) = start_spec(request, actor, settings);
    lemma_run_linkless(state, record(Seq::empty(), action), events);
}

} // verus!
