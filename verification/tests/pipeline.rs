use post_pipeline::activity::{TrophyActivity, TrophyActivityConfig};
use post_pipeline::error::PipelineError;
use post_pipeline::ids::{
    Actor, Community, CommunityId, CommunityVisibility, LanguageId, LocalUserId, PersonId, PostId,
};
use post_pipeline::notification::Notification;
use post_pipeline::pipeline::{create_post, Action, Event, Pipeline};
use post_pipeline::post::{CreatePost, Limits, Post, PostInsertForm, PostLikeForm, Settings};
use post_pipeline::script::replay;
use post_pipeline::time::Timestamp;

fn actor() -> Actor {
    Actor { person_id: PersonId(11), local_user_id: LocalUserId(5) }
}

fn settings() -> Settings {
    Settings {
        limits: Limits { title_min: 3, title_max: 200, alt_text_max: 1500, body_max: 50000 },
        slur_denylist: vec!["slur".to_string()],
        url_blocklist: vec!["blocked.example".to_string()],
        trophy_activity: Some(TrophyActivityConfig {
            enabled: true,
            activities: vec![
                TrophyActivity { title_pattern: "foo".to_string(), trophy_name: "A".to_string() },
                TrophyActivity {
                    title_pattern: "foofoo".to_string(),
                    trophy_name: "B".to_string(),
                },
            ],
        }),
    }
}

fn request() -> CreatePost {
    CreatePost {
        name: "  My foofoo post ".to_string(),
        community_id: CommunityId(7),
        url: Some("HTTPS://Example.com/a b".to_string()),
        body: Some("raw body".to_string()),
        alt_text: Some("a picture".to_string()),
        honeypot: None,
        nsfw: true,
        language_id: None,
        custom_thumbnail: Some("https://img.example.com/t.png".to_string()),
    }
}

fn plain_request() -> CreatePost {
    CreatePost {
        name: "Plain title".to_string(),
        community_id: CommunityId(7),
        url: None,
        body: None,
        alt_text: None,
        honeypot: None,
        nsfw: false,
        language_id: Some(LanguageId(3)),
        custom_thumbnail: None,
    }
}

fn community(visibility: CommunityVisibility, mods_only: bool) -> Community {
    Community { id: CommunityId(7), visibility, posting_restricted_to_mods: mods_only }
}

fn stored(form: &PostInsertForm) -> Post {
    Post {
        id: PostId(99),
        name: form.name.clone(),
        url: form.url.clone(),
        body: form.body.clone(),
        alt_text: form.alt_text.clone(),
        thumbnail_url: None,
        community_id: form.community_id,
        creator_id: form.creator_id,
        nsfw: form.nsfw,
        language_id: form.language_id,
        published: Timestamp { secs: 1_700_000_000, nanos: 0 },
        ap_id: "https://site.example/post/99".to_string(),
    }
}

fn expected_form() -> PostInsertForm {
    PostInsertForm {
        name: "My foofoo post".to_string(),
        url: Some("https://example.com/a%20b".to_string()),
        body: Some("<p>raw body</p>".to_string()),
        alt_text: Some("a picture".to_string()),
        community_id: CommunityId(7),
        creator_id: PersonId(11),
        nsfw: true,
        language_id: Some(LanguageId(37)),
    }
}

fn happy_events(visibility: CommunityVisibility) -> Vec<Event> {
    vec![
        Event::BodyNormalized(Some("<p>raw body</p>".to_string())),
        Event::BanChecked { banned: false },
        Event::CommunityFound(Some(community(visibility, true))),
        Event::ModeratorChecked { is_moderator: true },
        Event::DefaultLanguage(Some(LanguageId(37))),
        Event::Persisted(Some(stored(&expected_form()))),
        Event::MetadataEnriched { ok: true },
        Event::Liked { ok: true },
        Event::MarkedRead { ok: true },
    ]
}

fn failed(error: PipelineError) -> (Pipeline, Action) {
    (Pipeline::Failed { error }, Action::Fail { error })
}

fn like() -> Action {
    Action::Like {
        like: PostLikeForm { post_id: PostId(99), person_id: PersonId(11), score: 1 },
    }
}

fn mark_read() -> Action {
    Action::MarkRead { person_id: PersonId(11), post_id: PostId(99) }
}

/// The action orders an award of this name for the actor, stamped.
fn assert_award(action: &Action, name: &str) {
    match action {
        Action::AppendAward { local_user_id, trophy } => {
            assert_eq!(*local_user_id, LocalUserId(5));
            assert_eq!(trophy.name, name);
            let stamp = trophy.rewarded_at.expect("an award is stamped");
            assert!(stamp.secs > 1_600_000_000);
            assert!(stamp.nanos < 2_000_000_000);
        }
        other => panic!("expected an award, got {other:?}"),
    }
}

/// Feeds the events one by one and gives every action on the way.
fn drive(request: CreatePost, events: Vec<Event>) -> (Pipeline, Vec<Action>) {
    let (mut state, first) = create_post(request, actor(), settings());
    let mut actions = vec![first];
    for event in events {
        let (next, action) = state.step(event);
        state = next;
        actions.push(action);
    }
    (state, actions)
}

#[test]
fn publication_asks_and_orders_step_by_step() {
    let mut events = happy_events(CommunityVisibility::Public);
    events.push(Event::NotificationScheduled);
    events.push(Event::AwardAppended { ok: true });
    let (state, actions) = drive(request(), events);
    let expected = vec![
        Action::NormalizeBody { body: Some("raw body".to_string()) },
        Action::CheckBan { person_id: PersonId(11), community_id: CommunityId(7) },
        Action::FindCommunity { community_id: CommunityId(7) },
        Action::CheckModerator { community_id: CommunityId(7), person_id: PersonId(11) },
        Action::DefaultLanguage { community_id: CommunityId(7), local_user_id: LocalUserId(5) },
        Action::Persist { form: expected_form() },
        Action::EnrichMetadata {
            post: stored(&expected_form()),
            custom_thumbnail: Some("https://img.example.com/t.png".to_string()),
        },
        like(),
        mark_read(),
        Action::ScheduleNotification {
            notification: Notification {
                source: "https://site.example/post/99".to_string(),
                target: "https://example.com/a%20b".to_string(),
                checked: true,
            },
        },
        Action::Respond { community_id: CommunityId(7), post_id: PostId(99) },
    ];
    assert_eq!(actions.len(), 12);
    assert_eq!(actions[..10], expected[..10]);
    assert_award(&actions[10], "A");
    assert_eq!(actions[11], expected[10]);
    assert!(matches!(state, Pipeline::Done(_)));
    assert!(state.is_finished());
}

#[test]
fn replay_gives_the_effects_in_order() {
    let mut events = happy_events(CommunityVisibility::Public);
    events.push(Event::NotificationScheduled);
    events.push(Event::AwardAppended { ok: true });
    let (state, ledger) = replay(request(), actor(), settings(), events);
    assert!(matches!(state, Pipeline::Done(_)));
    assert_eq!(ledger.len(), 6);
    assert_eq!(ledger[0], Action::Persist { form: expected_form() });
    assert!(matches!(ledger[1], Action::EnrichMetadata { .. }));
    assert_eq!(ledger[2], like());
    assert_eq!(ledger[3], mark_read());
    assert!(matches!(ledger[4], Action::ScheduleNotification { .. }));
    assert_award(&ledger[5], "A");
}

#[test]
fn successful_publication_likes_and_marks_exactly_once() {
    let mut events = happy_events(CommunityVisibility::Public);
    events.push(Event::NotificationScheduled);
    events.push(Event::AwardAppended { ok: true });
    let (_, ledger) = replay(request(), actor(), settings(), events);
    let likes: Vec<&Action> =
        ledger.iter().filter(|a| matches!(a, Action::Like { .. })).collect();
    let reads: Vec<&Action> =
        ledger.iter().filter(|a| matches!(a, Action::MarkRead { .. })).collect();
    assert_eq!(likes, vec![&like()]);
    assert_eq!(reads, vec![&mark_read()]);
    let like_at = ledger.iter().position(|a| matches!(a, Action::Like { .. }));
    let read_at = ledger.iter().position(|a| matches!(a, Action::MarkRead { .. }));
    assert!(like_at < read_at);
}

#[test]
fn finished_publication_repeats_its_last_word() {
    let mut events = happy_events(CommunityVisibility::Restricted);
    events.push(Event::AwardAppended { ok: true });
    let (state, actions) = drive(request(), events);
    let respond = Action::Respond { community_id: CommunityId(7), post_id: PostId(99) };
    assert_eq!(actions.last(), Some(&respond));
    let (state, again) = state.step(Event::Liked { ok: true });
    assert_eq!(again, respond);
    assert!(matches!(state, Pipeline::Done(_)));
    let (state, action) = create_post(
        CreatePost { honeypot: Some("x".to_string()), ..request() },
        actor(),
        settings(),
    );
    assert_eq!((state.clone(), action), failed(PipelineError::SpamRejected));
    assert_eq!(
        state.step(Event::BodyNormalized(None)),
        failed(PipelineError::SpamRejected)
    );
}

#[test]
fn honeypot_fails_as_spam_and_orders_nothing() {
    let mut r = request();
    r.honeypot = Some("I am a bot".to_string());
    let mut events = happy_events(CommunityVisibility::Public);
    events.push(Event::NotificationScheduled);
    events.push(Event::AwardAppended { ok: true });
    let (state, ledger) = replay(r.clone(), actor(), settings(), events);
    assert_eq!(state, Pipeline::Failed { error: PipelineError::SpamRejected });
    assert_eq!(ledger, Vec::new());
    let (state, ledger) = replay(r, actor(), settings(), Vec::new());
    assert_eq!(state, Pipeline::Failed { error: PipelineError::SpamRejected });
    assert_eq!(ledger, Vec::new());
}

#[test]
fn honeypot_is_checked_before_everything_else() {
    let mut r = request();
    r.honeypot = Some("bot".to_string());
    r.name = "slur".to_string();
    r.url = Some("https://blocked.example/".to_string());
    assert_eq!(create_post(r, actor(), settings()), failed(PipelineError::SpamRejected));
}

#[test]
fn empty_honeypot_passes() {
    let mut r = request();
    r.honeypot = Some(String::new());
    let (state, action) = create_post(r, actor(), settings());
    assert!(matches!(state, Pipeline::AwaitingBody(_)));
    assert_eq!(action, Action::NormalizeBody { body: Some("raw body".to_string()) });
}

#[test]
fn denied_term_in_title_is_disallowed() {
    let mut r = request();
    r.name = "a slur title".to_string();
    assert_eq!(create_post(r, actor(), settings()), failed(PipelineError::DisallowedContent));
}

#[test]
fn rejected_body_is_malformed_content() {
    let (state, actions) = drive(request(), vec![Event::BodyRejected]);
    assert_eq!(state, Pipeline::Failed { error: PipelineError::MalformedContent });
    assert_eq!(actions[1], Action::Fail { error: PipelineError::MalformedContent });
}

#[test]
fn short_title_is_invalid() {
    let mut r = request();
    r.name = "  ab ".to_string();
    let (state, _) = drive(r, vec![Event::BodyNormalized(None)]);
    assert_eq!(state, Pipeline::Failed { error: PipelineError::InvalidTitle });
}

#[test]
fn blocked_url_fails_and_nothing_is_stored() {
    let mut r = request();
    r.url = Some("https://www.Blocked.example/page".to_string());
    let mut events = happy_events(CommunityVisibility::Public);
    events.push(Event::NotificationScheduled);
    events.push(Event::AwardAppended { ok: true });
    let (state, ledger) = replay(r, actor(), settings(), events);
    assert_eq!(state, Pipeline::Failed { error: PipelineError::BlockedUrl });
    assert_eq!(ledger, Vec::new());
}

#[test]
fn unparsable_url_is_invalid() {
    let mut r = request();
    r.url = Some("no url".to_string());
    let (state, ledger) = replay(r, actor(), settings(), happy_events(CommunityVisibility::Public));
    assert_eq!(state, Pipeline::Failed { error: PipelineError::InvalidUrl });
    assert_eq!(ledger, Vec::new());
}

#[test]
fn unparsable_thumbnail_is_invalid() {
    let mut r = request();
    r.custom_thumbnail = Some("no url".to_string());
    let (state, _) = drive(r, vec![Event::BodyNormalized(None)]);
    assert_eq!(state, Pipeline::Failed { error: PipelineError::InvalidUrl });
}

#[test]
fn long_alt_text_and_body_are_refused() {
    let mut r = request();
    r.alt_text = Some("x".repeat(1501));
    let (state, _) = drive(r, vec![Event::BodyNormalized(None)]);
    assert_eq!(state, Pipeline::Failed { error: PipelineError::AltTextTooLong });
    let (state, _) = drive(request(), vec![Event::BodyNormalized(Some("y".repeat(50001)))]);
    assert_eq!(state, Pipeline::Failed { error: PipelineError::BodyTooLong });
    let (state, _) = drive(request(), vec![Event::BodyNormalized(Some("y".repeat(50000)))]);
    assert!(matches!(state, Pipeline::AwaitingBan(_)));
}

#[test]
fn banned_actor_is_blocked_before_the_community_is_looked_up() {
    let events = vec![Event::BodyNormalized(None), Event::BanChecked { banned: true }];
    let (state, actions) = drive(request(), events);
    assert_eq!(state, Pipeline::Failed { error: PipelineError::ActionBlocked });
    assert_eq!(actions.len(), 3);
    assert_eq!(actions[2], Action::Fail { error: PipelineError::ActionBlocked });
}

#[test]
fn missing_community_fails() {
    let events = vec![
        Event::BodyNormalized(None),
        Event::BanChecked { banned: false },
        Event::CommunityFound(None),
    ];
    let (state, _) = drive(request(), events);
    assert_eq!(state, Pipeline::Failed { error: PipelineError::CommunityNotFound });
}

#[test]
fn only_moderators_post_where_posting_is_restricted() {
    let events = vec![
        Event::BodyNormalized(None),
        Event::BanChecked { banned: false },
        Event::CommunityFound(Some(community(CommunityVisibility::Public, true))),
        Event::ModeratorChecked { is_moderator: false },
    ];
    let (state, ledger) = replay(request(), actor(), settings(), events);
    assert_eq!(state, Pipeline::Failed { error: PipelineError::ModsOnlyPosting });
    assert_eq!(ledger, Vec::new());
}

#[test]
fn moderators_are_not_asked_for_where_everyone_may_post() {
    let events = vec![
        Event::BodyNormalized(None),
        Event::BanChecked { banned: false },
        Event::CommunityFound(Some(community(CommunityVisibility::Public, false))),
    ];
    let (_, actions) = drive(plain_request(), events);
    assert_eq!(
        actions[3],
        Action::CheckLanguage { language_id: LanguageId(3), community_id: CommunityId(7) }
    );
}

#[test]
fn explicit_language_must_be_allowed() {
    let mut events = vec![
        Event::BodyNormalized(None),
        Event::BanChecked { banned: false },
        Event::CommunityFound(Some(community(CommunityVisibility::Public, false))),
        Event::LanguageChecked { allowed: false },
    ];
    let (state, ledger) = replay(plain_request(), actor(), settings(), events.clone());
    assert_eq!(state, Pipeline::Failed { error: PipelineError::LanguageNotAllowed });
    assert_eq!(ledger, Vec::new());
    events[3] = Event::LanguageChecked { allowed: true };
    let (state, actions) = drive(plain_request(), events);
    assert!(matches!(state, Pipeline::AwaitingPersist(_, _)));
    match &actions[4] {
        Action::Persist { form } => assert_eq!(form.language_id, Some(LanguageId(3))),
        other => panic!("expected the order to store, got {other:?}"),
    }
}

#[test]
fn default_language_is_used_as_it_comes() {
    for default in [None, Some(LanguageId(0)), Some(LanguageId(37))] {
        let events = vec![
            Event::BodyNormalized(None),
            Event::BanChecked { banned: false },
            Event::CommunityFound(Some(community(CommunityVisibility::Public, false))),
            Event::DefaultLanguage(default),
        ];
        let (_, ledger) = replay(request(), actor(), settings(), events);
        match &ledger[0] {
            Action::Persist { form } => assert_eq!(form.language_id, default),
            other => panic!("expected the order to store, got {other:?}"),
        }
    }
}

#[test]
fn failed_persistence_is_fatal() {
    let mut events = happy_events(CommunityVisibility::Public);
    events.truncate(5);
    events.push(Event::Persisted(None));
    events.push(Event::Liked { ok: true });
    let (state, ledger) = replay(request(), actor(), settings(), events);
    assert_eq!(state, Pipeline::Failed { error: PipelineError::PersistenceFailed });
    assert_eq!(ledger, vec![Action::Persist { form: expected_form() }]);
}

#[test]
fn failed_metadata_like_and_marker_are_fatal() {
    let cases = [
        (6, Event::MetadataEnriched { ok: false }, PipelineError::MetadataFailed, 2),
        (7, Event::Liked { ok: false }, PipelineError::SelfEngagementFailed, 3),
        (8, Event::MarkedRead { ok: false }, PipelineError::SelfEngagementFailed, 4),
    ];
    for (at, event, error, effects) in cases {
        let mut events = happy_events(CommunityVisibility::Public);
        events.truncate(at);
        events.push(event);
        let (state, ledger) = replay(request(), actor(), settings(), events);
        assert_eq!(state, Pipeline::Failed { error });
        assert_eq!(ledger.len(), effects);
    }
}

#[test]
fn failed_award_is_fatal() {
    let mut events = happy_events(CommunityVisibility::Restricted);
    events.push(Event::AwardAppended { ok: false });
    let (state, ledger) = replay(request(), actor(), settings(), events);
    assert_eq!(state, Pipeline::Failed { error: PipelineError::AwardPersistFailed });
    assert_eq!(ledger.len(), 5);
}

#[test]
fn restricted_community_with_a_link_is_not_announced() {
    let mut events = happy_events(CommunityVisibility::Restricted);
    events.push(Event::AwardAppended { ok: true });
    let (state, ledger) = replay(request(), actor(), settings(), events);
    assert!(matches!(state, Pipeline::Done(_)));
    assert!(ledger.iter().all(|a| !matches!(a, Action::ScheduleNotification { .. })));
    assert_eq!(ledger.len(), 5);
}

#[test]
fn public_community_without_a_link_is_not_announced() {
    let form = PostInsertForm {
        name: "Plain title".to_string(),
        url: None,
        body: None,
        alt_text: None,
        community_id: CommunityId(7),
        creator_id: PersonId(11),
        nsfw: false,
        language_id: Some(LanguageId(3)),
    };
    let events = vec![
        Event::BodyNormalized(None),
        Event::BanChecked { banned: false },
        Event::CommunityFound(Some(community(CommunityVisibility::Public, false))),
        Event::LanguageChecked { allowed: true },
        Event::Persisted(Some(stored(&form))),
        Event::MetadataEnriched { ok: true },
        Event::Liked { ok: true },
        Event::MarkedRead { ok: true },
    ];
    let (state, actions) = drive(plain_request(), events);
    assert!(matches!(state, Pipeline::Done(_)));
    assert_eq!(
        actions.last(),
        Some(&Action::Respond { community_id: CommunityId(7), post_id: PostId(99) })
    );
    assert!(actions.iter().all(|a| !matches!(a, Action::ScheduleNotification { .. })));
    assert!(actions.iter().all(|a| !matches!(a, Action::AppendAward { .. })));
}

#[test]
fn title_without_a_trigger_earns_nothing() {
    let mut r = request();
    r.name = "Nothing special".to_string();
    let mut events = happy_events(CommunityVisibility::Public);
    events.push(Event::NotificationScheduled);
    let (state, ledger) = replay(r, actor(), settings(), events);
    assert!(matches!(state, Pipeline::Done(_)));
    assert_eq!(ledger.len(), 5);
    assert!(matches!(ledger[4], Action::ScheduleNotification { .. }));
}

#[test]
fn disabled_triggers_earn_nothing() {
    let mut s = settings();
    if let Some(config) = s.trophy_activity.as_mut() {
        config.enabled = false;
    }
    let (state, ledger) = replay(request(), actor(), s, happy_events(CommunityVisibility::Restricted));
    assert!(matches!(state, Pipeline::Done(_)));
    assert_eq!(ledger.len(), 4);
    let mut s = settings();
    s.trophy_activity = None;
    let (state, ledger) = replay(request(), actor(), s, happy_events(CommunityVisibility::Restricted));
    assert!(matches!(state, Pipeline::Done(_)));
    assert_eq!(ledger.len(), 4);
}

#[test]
fn two_publications_order_the_same_award_twice() {
    let mut events = happy_events(CommunityVisibility::Restricted);
    events.push(Event::AwardAppended { ok: true });
    let mut other = request();
    other.name = "Another foo".to_string();
    let (_, first) = replay(request(), actor(), settings(), events.clone());
    let (_, second) = replay(other, actor(), settings(), events);
    assert_award(first.last().expect("effects"), "A");
    assert_award(second.last().expect("effects"), "A");
}

#[test]
fn unexpected_answer_fails_the_publication() {
    let (state, actions) = drive(request(), vec![Event::Liked { ok: true }]);
    assert_eq!(state, Pipeline::Failed { error: PipelineError::UnexpectedEvent });
    assert_eq!(actions[1], Action::Fail { error: PipelineError::UnexpectedEvent });
    let events = vec![Event::BodyNormalized(None), Event::NotificationScheduled];
    let (state, _) = drive(request(), events);
    assert_eq!(state, Pipeline::Failed { error: PipelineError::UnexpectedEvent });
}

#[test]
fn effects_are_told_from_questions() {
    assert!(like().is_effect());
    assert!(mark_read().is_effect());
    assert!(Action::Persist { form: expected_form() }.is_effect());
    assert!(!Action::FindCommunity { community_id: CommunityId(7) }.is_effect());
    assert!(!Action::NormalizeBody { body: None }.is_effect());
    assert!(!Action::Fail { error: PipelineError::InvalidUrl }.is_effect());
    assert!(!Action::Respond { community_id: CommunityId(7), post_id: PostId(99) }.is_effect());
}
