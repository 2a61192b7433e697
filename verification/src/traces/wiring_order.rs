//! An output stage goes to the registry only after both of its legs are
//! linked to the cross-fader and the links acknowledged: a theorem about
//! every run of the actor.

use crate::factory::protocol::{
    BackendOutcomeView, FactoryActionView, FactoryEventView, RegisterOutputStageRequestView,
};
use crate::factory::utils::{link, CreateLinkByNameRequestView};
use crate::factory::machine::{lemma_job_keeps_identity, stage_links, FactoryView};
use crate::traces::runs::lemma_run_prefix;
use vstd::prelude::*;

verus! {

/// In a run with the given events and actions, the actor asked for `link`
/// in turn `asked` and was told in turn `told` that the link exists: the
/// acknowledgement is the first outcome after the call, with nothing but
/// requests in between.
pub open spec fn link_acknowledged(
    events: Seq<FactoryEventView>,
    actions: Seq<FactoryActionView>,
    link: CreateLinkByNameRequestView,
    asked: int,
    told: int,
) -> bool {
    &&& 0 <= asked < told < events.len()
    &&& actions[asked] == FactoryActionView::CreateLinkByName(link)
    &&& events[told] == FactoryEventView::Outcome(BackendOutcomeView::LinkCreated)
    &&& forall|between: int| asked < between < told ==> events[between] is Request
}

/// In a run with the given events and actions, `link` was asked for and
/// acknowledged, the acknowledgement coming no later than turn `by`.
pub open spec fn link_made(
    events: Seq<FactoryEventView>,
    actions: Seq<FactoryActionView>,
    link: CreateLinkByNameRequestView,
    by: int,
) -> bool {
    exists|asked: int, told: int|
        told <= by && #[trigger] link_acknowledged(events, actions, link, asked, told)
}

/// In a run with the given events and actions, the actor asked for `link`
/// in turn `asked`, before turn `now`, and only requests have come since.
pub open spec fn link_pending(
    events: Seq<FactoryEventView>,
    actions: Seq<FactoryActionView>,
    link: CreateLinkByNameRequestView,
    asked: int,
    now: int,
) -> bool {
    &&& 0 <= asked < now
    &&& actions[asked] == FactoryActionView::CreateLinkByName(link)
    &&& forall|between: int| asked < between < now ==> events[between] is Request
}

/// In a run with the given events and actions, `link` was asked for before
/// turn `now`, and only requests have come since.
pub open spec fn link_awaited(
    events: Seq<FactoryEventView>,
    actions: Seq<FactoryActionView>,
    link: CreateLinkByNameRequestView,
    now: int,
) -> bool {
    exists|asked: int| #[trigger] link_pending(events, actions, link, asked, now)
}

/// The links of the output stage that an actor is wiring.
pub open spec fn wiring_links(actor: FactoryView) -> Seq<CreateLinkByNameRequestView> {
    stage_links(
        actor.phase->StageWiring_left_gain,
        actor.phase->StageWiring_right_gain,
        actor.phase->StageWiring_cross_fader,
    )
}

/// An actor comes to wait for a link of an output stage in three ways
/// only: the stage's cross-fader has just been made, and the link is the
/// first; the link before it has just been acknowledged; or it waited
/// already and has refused a request.
pub proof fn lemma_step_into_stage_wiring(actor: FactoryView, event: FactoryEventView)
    requires
        actor.wf(),
        actor.step(event).0.phase is StageWiring,
    ensures
        ({
            let after = actor.step(event).0;
            let issued = after.phase->StageWiring_issued;
            ||| {
                &&& actor.phase is CrossFader
                &&& event is Outcome
                &&& issued == 0
                &&& actor.step(event).1 == FactoryActionView::CreateLinkByName(
                    wiring_links(after)[0],
                )
            }
            ||| {
                &&& actor.phase is StageWiring
                &&& event == FactoryEventView::Outcome(BackendOutcomeView::LinkCreated)
                &&& wiring_links(after) == wiring_links(actor)
                &&& issued == actor.phase->StageWiring_issued + 1
                &&& actor.step(event).1 == FactoryActionView::CreateLinkByName(
                    wiring_links(after)[issued],
                )
            }
            ||| {
                &&& actor.phase is StageWiring
                &&& event is Request
                &&& after == actor
            }
        }),
{
    reveal(FactoryView::proceed);
    match event {
        FactoryEventView::Request(_) => {},
        FactoryEventView::Outcome(outcome) => {
            match actor.phase.job() {
                Some(job) => lemma_job_keeps_identity(job, actor.config, outcome),
                None => {},
            }
        },
    }
}

/// The actor sends an output stage to the registry in one situation only:
/// it waited for the last of the stage's four links, and that link has
/// just been acknowledged. The record names the stage's two legs and its
/// cross-fader.
pub proof fn lemma_step_registers_stage(actor: FactoryView, event: FactoryEventView)
    requires
        actor.wf(),
        actor.step(event).1 is RegisterOutputStage,
    ensures
        actor.phase is StageWiring,
        actor.phase->StageWiring_issued == 3,
        event == FactoryEventView::Outcome(BackendOutcomeView::LinkCreated),
        actor.step(event).1 == FactoryActionView::RegisterOutputStage(
            RegisterOutputStageRequestView {
                name: actor.phase->StageWiring_name,
                left_channel_strip_id: actor.phase->StageWiring_left_id,
                right_channel_strip_id: actor.phase->StageWiring_right_id,
                cross_fader_plugin_id: actor.phase->StageWiring_cross_fader.id,
            },
        ),
{
    reveal(FactoryView::proceed);
    match event {
        FactoryEventView::Request(_) => {},
        FactoryEventView::Outcome(outcome) => {
            match actor.phase.job() {
                Some(job) => lemma_job_keeps_identity(job, actor.config, outcome),
                None => {},
            }
        },
    }
}

/// After `turns` turns of a run, an actor that waits for a link of an
/// output stage has asked for that link and heard nothing since, and the
/// stage's links before it have all been asked for and acknowledged.
pub open spec fn wiring_accounted(actor: FactoryView, events: Seq<FactoryEventView>, turns: int)
    -> bool {
    let now = actor.run(events.take(turns)).0;
    let actions = actor.run(events).1;
    now.phase is StageWiring ==> {
        &&& forall|m: int|
            0 <= m < now.phase->StageWiring_issued ==> link_made(
                events,
                actions,
                #[trigger] wiring_links(now)[m],
                turns - 1,
            )
        &&& link_awaited(
            events,
            actions,
            wiring_links(now)[now.phase->StageWiring_issued],
            turns,
        )
    }
}

/// A link that was made by some turn was made by every later turn.
pub proof fn lemma_link_made_later(
    events: Seq<FactoryEventView>,
    actions: Seq<FactoryActionView>,
    link: CreateLinkByNameRequestView,
    by: int,
    later: int,
)
    requires
        link_made(events, actions, link, by),
        by <= later,
    ensures
        link_made(events, actions, link, later),
{
    let (asked, told) = choose|asked: int, told: int|
        told <= by && #[trigger] link_acknowledged(events, actions, link, asked, told);
    assert(told <= later && link_acknowledged(events, actions, link, asked, told));
}

/// In every run that begins at rest, and after any number of its turns,
/// the links of the output stage in flight are accounted for.
pub proof fn lemma_wiring_accounted(actor: FactoryView, events: Seq<FactoryEventView>, turns: int)
    requires
        actor.wf(),
        actor.phase is Idle,
        0 <= turns <= events.len(),
    ensures
        wiring_accounted(actor, events, turns),
    decreases turns,
{
    let actions = actor.run(events).1;
    let now = actor.run(events.take(turns)).0;
    if turns == 0 {
        assert(events.take(0) =~= Seq::empty());
    } else {
        let last = turns - 1;
        lemma_wiring_accounted(actor, events, last);
        lemma_run_prefix(actor, events, last);
        let before = actor.run(events.take(last)).0;
        let event = events[last];
        if now.phase is StageWiring {
            lemma_step_into_stage_wiring(before, event);
            let issued = now.phase->StageWiring_issued;
            let links = wiring_links(now);
            if before.phase is CrossFader {
                assert(link_pending(events, actions, links[0], last, turns));
            } else if event is Request {
                let asked = choose|asked: int|
                    #[trigger] link_pending(events, actions, links[issued], asked, last);
                assert(link_pending(events, actions, links[issued], asked, turns));
                assert forall|m: int| 0 <= m < issued implies link_made(
                    events,
                    actions,
                    #[trigger] links[m],
                    turns - 1,
                ) by {
                    lemma_link_made_later(events, actions, links[m], last - 1, turns - 1);
                }
            } else {
                let asked = choose|asked: int|
                    #[trigger] link_pending(events, actions, links[issued - 1], asked, last);
                assert(link_acknowledged(events, actions, links[issued - 1], asked, last));
                assert(link_pending(events, actions, links[issued], last, turns));
                assert forall|m: int| 0 <= m < issued implies link_made(
                    events,
                    actions,
                    #[trigger] links[m],
                    turns - 1,
                ) by {
                    if m < issued - 1 {
                        lemma_link_made_later(events, actions, links[m], last - 1, turns - 1);
                    }
                }
            }
        }
    }
}

/// An output stage never goes to the registry before both of its legs are
/// wired into the cross-fader. In every run that begins at rest, whatever
/// its events: if the actor sends an output stage to the registry in some
/// turn, then by that turn each of the stage's four links, left leg into
/// the cross-fader's ports 0 and 1 and right leg into its ports 2 and 3,
/// has been asked for and acknowledged, and the record names the
/// cross-fader that these links lead to.
pub proof fn theorem_stage_registered_after_wiring(
    actor: FactoryView,
    events: Seq<FactoryEventView>,
    turn: int,
)
    requires
        actor.wf(),
        actor.phase is Idle,
        0 <= turn < events.len(),
        actor.run(events).1[turn] is RegisterOutputStage,
    ensures
        ({
            let before = actor.run(events.take(turn)).0;
            let actions = actor.run(events).1;
            let left_gain = before.phase->StageWiring_left_gain;
            let right_gain = before.phase->StageWiring_right_gain;
            let cross_fader = before.phase->StageWiring_cross_fader;
            &&& before.phase is StageWiring
            &&& actions[turn]->RegisterOutputStage_0.cross_fader_plugin_id == cross_fader.id
            &&& actions[turn]->RegisterOutputStage_0.left_channel_strip_id
                == before.phase->StageWiring_left_id
            &&& actions[turn]->RegisterOutputStage_0.right_channel_strip_id
                == before.phase->StageWiring_right_id
            &&& link_made(
                events,
                actions,
                link(left_gain, 0, cross_fader, 0),
                turn,
            )
            &&& link_made(
                events,
                actions,
                link(left_gain, 1, cross_fader, 1),
                turn,
            )
            &&& link_made(
                events,
                actions,
                link(right_gain, 0, cross_fader, 2),
                turn,
            )
            &&& link_made(
                events,
                actions,
                link(right_gain, 1, cross_fader, 3),
                turn,
            )
        }),
{
    let before = actor.run(events.take(turn)).0;
    let actions = actor.run(events).1;
    lemma_run_prefix(actor, events, turn);
    lemma_step_registers_stage(before, events[turn]);
    lemma_wiring_accounted(actor, events, turn);
    let links = wiring_links(before);
    let asked = choose|asked: int| #[trigger] link_pending(events, actions, links[3], asked, turn);
    assert(link_acknowledged(events, actions, links[3], asked, turn));
    assert(link_made(events, actions, links[3], turn));
    assert(link_made(events, actions, links[0], turn - 1));
    assert(link_made(events, actions, links[1], turn - 1));
    assert(link_made(events, actions, links[2], turn - 1));
    lemma_link_made_later(events, actions, links[0], turn - 1, turn);
    lemma_link_made_later(events, actions, links[1], turn - 1, turn);
    lemma_link_made_later(events, actions, links[2], turn - 1, turn);
}

} // verus!
