//! Runs of the actor: how a run is made of turns and of shorter runs, and
//! what every run keeps.

use crate::factory::protocol::{BackendOutcomeView, FactoryActionView, FactoryEventView};
use crate::factory::machine::{lemma_job_keeps_identity, FactoryView, PhaseView};
use vstd::prelude::*;

verus! {

/// A run over one more event is the run before it and then one turn.
pub proof fn lemma_run_push(actor: FactoryView, events: Seq<FactoryEventView>, event: FactoryEventView)
    ensures
        actor.run(events.push(event)) == (
            actor.run(events).0.step(event).0,
            actor.run(events).1.push(actor.run(events).0.step(event).1),
        ),
{
    assert(events.push(event).drop_last() =~= events);
}

/// A run over one event is one turn.
pub proof fn lemma_run_one(actor: FactoryView, event: FactoryEventView)
    ensures
        actor.run(seq![event]) == (actor.step(event).0, seq![actor.step(event).1]),
{
    lemma_run_push(actor, Seq::empty(), event);
    assert(Seq::<FactoryEventView>::empty().push(event) =~= seq![event]);
    assert(Seq::<FactoryActionView>::empty().push(actor.step(event).1) =~= seq![
        actor.step(event).1,
    ]);
}

/// A run over two sequences of events, one after the other, is the run
/// over the first and then, from where that ended, the run over the second.
pub proof fn lemma_run_concat(
    actor: FactoryView,
    first: Seq<FactoryEventView>,
    second: Seq<FactoryEventView>,
)
    ensures
        actor.run(first + second) == (
            actor.run(first).0.run(second).0,
            actor.run(first).1 + actor.run(first).0.run(second).1,
        ),
    decreases second.len(),
{
    let middle = actor.run(first).0;
    if second.len() == 0 {
        assert(first + second =~= first);
        assert(actor.run(first).1 + middle.run(second).1 =~= actor.run(first).1);
    } else {
        lemma_run_concat(actor, first, second.drop_last());
        assert((first + second).drop_last() =~= first + second.drop_last());
        assert((first + second).last() == second.last());
        let before = middle.run(second.drop_last());
        assert(actor.run(first).1 + before.1.push(before.0.step(second.last()).1) =~= (actor.run(
            first,
        ).1 + before.1).push(before.0.step(second.last()).1));
    }
}

/// One turn keeps the actor sound, never lowers its counter, and raises it
/// by at most one.
pub proof fn lemma_step_wf(actor: FactoryView, event: FactoryEventView)
    requires
        actor.wf(),
    ensures
        actor.step(event).0.wf(),
        actor.step(event).0.config == actor.config,
        actor.next_channel_strip_id <= actor.step(event).0.next_channel_strip_id
            <= actor.next_channel_strip_id + 1,
{
    reveal(FactoryView::proceed);
    match event {
        FactoryEventView::Request(_) => {},
        FactoryEventView::Outcome(outcome) => {
            match actor.phase {
                PhaseView::ChannelStrip { job, .. } => lemma_job_keeps_identity(job, actor.config, outcome),
                PhaseView::LeftLeg { job, .. } => lemma_job_keeps_identity(job, actor.config, outcome),
                PhaseView::RightLeg { job, .. } => lemma_job_keeps_identity(job, actor.config, outcome),
                _ => {},
            }
        },
    }
}

/// A run keeps the actor sound and never lowers its counter.
pub proof fn lemma_run_wf(actor: FactoryView, events: Seq<FactoryEventView>)
    requires
        actor.wf(),
    ensures
        actor.run(events).0.wf(),
        actor.run(events).0.config == actor.config,
        actor.run(events).1.len() == events.len(),
        actor.next_channel_strip_id <= actor.run(events).0.next_channel_strip_id,
    decreases events.len(),
{
    if events.len() > 0 {
        lemma_run_wf(actor, events.drop_last());
        lemma_step_wf(actor.run(events.drop_last()).0, events.last());
    }
}

/// The first `turns` turns of a run are the run over the first `turns`
/// events, and the turn after them is one turn from where that run ends.
pub proof fn lemma_run_prefix(actor: FactoryView, events: Seq<FactoryEventView>, turns: int)
    requires
        actor.wf(),
        0 <= turns <= events.len(),
    ensures
        actor.run(events.take(turns)).0.wf(),
        actor.run(events.take(turns)).1 == actor.run(events).1.take(turns),
        actor.run(events).1.len() == events.len(),
        turns < events.len() ==> actor.run(events).1[turns] == actor.run(events.take(turns)).0.step(
            events[turns],
        ).1,
        turns < events.len() ==> actor.run(events.take(turns + 1)).0 == actor.run(
            events.take(turns),
        ).0.step(events[turns]).0,
{
    lemma_run_wf(actor, events);
    lemma_run_wf(actor, events.take(turns));
    assert(events =~= events.take(turns) + events.skip(turns));
    lemma_run_concat(actor, events.take(turns), events.skip(turns));
    lemma_run_wf(actor.run(events.take(turns)).0, events.skip(turns));
    assert(actor.run(events).1.take(turns) =~= actor.run(events.take(turns)).1);
    if turns < events.len() {
        let next = seq![events[turns]];
        assert(events.take(turns + 1) =~= events.take(turns) + next);
        lemma_run_concat(actor, events.take(turns), next);
        lemma_run_one(actor.run(events.take(turns)).0, events[turns]);
        lemma_run_prefix_of_prefix(actor, events, turns);
    }
}

/// The action of a turn does not depend on what comes after the turn.
proof fn lemma_run_prefix_of_prefix(actor: FactoryView, events: Seq<FactoryEventView>, turns: int)
    requires
        actor.wf(),
        0 <= turns < events.len(),
    ensures
        actor.run(events).1[turns] == actor.run(events.take(turns + 1)).1[turns],
{
    let head = events.take(turns + 1);
    let rest = events.skip(turns + 1);
    assert(events =~= head + rest);
    lemma_run_concat(actor, head, rest);
    lemma_run_wf(actor, head);
}

/// The events that tell the actor of a sequence of outcomes.
pub open spec fn outcome_events(outcomes: Seq<BackendOutcomeView>) -> Seq<FactoryEventView> {
    Seq::new(outcomes.len(), |i: int| FactoryEventView::Outcome(outcomes[i]))
}

} // verus!
