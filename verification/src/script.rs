//! Running a publication against a prepared list of answers.

use vstd::prelude::*;
use crate::ids::Actor;
use crate::laws::{publication, record, run};
use crate::pipeline::{
    award_stamped,
    create_post,
    Action,
    ActionView,
    Event,
    EventView,
    Pipeline,
};
use crate::post::{CreatePost, Settings};

verus! {

/// The views of a list of events.
pub open spec fn event_views(events: Seq<Event>) -> Seq<EventView> {
    Seq::new(events.len(), |i: int| events[i]@)
}

/// The views of a list of actions.
pub open spec fn action_views(actions: Seq<Action>) -> Seq<ActionView> {
    Seq::new(actions.len(), |i: int| actions[i]@)
}

/// Publishes `request` with `events` for answers, one after the other,
/// and gives the state reached and the effects ordered on the way, in
/// order. Answers that come after the end of the publication change
/// nothing.
pub fn replay(request: CreatePost, actor: Actor, settings: Settings, events: Vec<Event>) -> (r: (
    Pipeline,
    Vec<Action>,
))
    ensures
        (r.0@, action_views(r.1@)) == publication(
            request@,
            actor,
            settings@,
            event_views(events@),
        ),
        forall|i: int| 0 <= i < r.1@.len() ==> award_stamped(#[trigger] r.1@[i]),
{
    let ghost all = event_views(events@);
    let ghost goal = publication(request@, actor, settings@, all);
    let (mut state, _) = create_post(request, actor, settings);
    let mut ledger: Vec<Action> = Vec::new();
    assert(action_views(ledger@) =~= Seq::<ActionView>::empty());
    assert(all.skip(0) =~= all);
    for event in it: events
        invariant
            it.seq() == events@,
            all == event_views(events@),
            goal == run(state@, action_views(ledger@), all.skip(it.index())),
            forall|i: int| 0 <= i < ledger@.len() ==> award_stamped(#[trigger] ledger@[i]),
    {
        let ghost before_ledger = action_views(ledger@);
        let ghost rest = all.skip(it.index());
        assert(rest.drop_first() =~= all.skip(it.index() + 1));
        let (next, action) = state.step(event);
        state = next;
        if action.is_effect() {
            ledger.push(action);
        }
        assert(action_views(ledger@) == record(before_ledger, action@));
    }
    (state, ledger)
}

} // verus!
