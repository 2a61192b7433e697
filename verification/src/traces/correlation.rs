//! Every answer goes into the slot of the request that asked for it: a
//! theorem about every run of the actor.

use crate::factory::protocol::{FactoryActionView, FactoryEventView, FactoryRequestView};
use crate::factory::machine::{lemma_job_keeps_identity, FactoryView, PhaseView};
use crate::traces::runs::lemma_run_prefix;
use vstd::prelude::*;

verus! {

/// The request that the actor is serving, as it can be told from the
/// actor's state.
pub open spec fn in_flight(actor: FactoryView) -> Option<FactoryRequestView> {
    match actor.phase {
        PhaseView::Idle => None,
        PhaseView::ChannelStrip { response_sender, job } => Some(
            FactoryRequestView::CreateChannelStrip {
                name: job.name,
                response_sender,
                channel_type: job.kind(),
            },
        ),
        PhaseView::LeftLeg { name, response_sender, .. } => Some(
            FactoryRequestView::CreateOutputStage { name, response_sender },
        ),
        PhaseView::RightLeg { name, response_sender, .. } => Some(
            FactoryRequestView::CreateOutputStage { name, response_sender },
        ),
        PhaseView::CrossFader { name, response_sender, .. } => Some(
            FactoryRequestView::CreateOutputStage { name, response_sender },
        ),
        PhaseView::StageWiring { name, response_sender, .. } => Some(
            FactoryRequestView::CreateOutputStage { name, response_sender },
        ),
        PhaseView::StageRegistering { name, response_sender, .. } => Some(
            FactoryRequestView::CreateOutputStage { name, response_sender },
        ),
    }
}

/// Whether `action` answers `request`: it goes into the request's slot,
/// and a record in it bears the request's name and, for a channel strip,
/// the kind that was asked for, with a cross-fader exactly in a
/// cross-faded strip.
pub open spec fn answers_request(action: FactoryActionView, request: FactoryRequestView) -> bool {
    match action {
        FactoryActionView::ReplyChannelStrip { response_sender, response } => {
            &&& request matches FactoryRequestView::CreateChannelStrip {
                name,
                response_sender: slot,
                channel_type,
            }
            &&& slot == response_sender
            &&& response matches Ok(record) ==> {
                &&& record.name == name
                &&& record.channel_type == channel_type
                &&& record.plugins.kind() == channel_type
            }
        },
        FactoryActionView::ReplyOutputStage { response_sender, response } => {
            &&& request matches FactoryRequestView::CreateOutputStage { name, response_sender: slot }
            &&& slot == response_sender
            &&& response matches Ok(record) ==> record.name == name
        },
        _ => false,
    }
}

/// Whether `action` is an answer.
pub open spec fn is_answer(action: FactoryActionView) -> bool {
    action is ReplyChannelStrip || action is ReplyOutputStage
}

/// The request that an actor serves after a turn is the one that it served
/// before, or the one that the turn brought.
pub proof fn lemma_step_keeps_request(actor: FactoryView, event: FactoryEventView)
    requires
        actor.wf(),
        in_flight(actor.step(event).0) is Some,
    ensures
        in_flight(actor.step(event).0) == in_flight(actor) || (actor.phase is Idle && event
            == FactoryEventView::Request(in_flight(actor.step(event).0)->0)),
{
    reveal(FactoryView::proceed);
    match event {
        FactoryEventView::Request(_) => {},
        FactoryEventView::Outcome(outcome) => {
            match actor.phase.job() {
                Some(job) => lemma_job_keeps_identity(job, actor.config, outcome),
                None => {},
            }
        },
    }
}

/// An answer given in a turn answers the request that the actor served, or
/// refuses the one that the turn brought; and only a refusal leaves a
/// request in flight.
pub proof fn lemma_step_answers_request(actor: FactoryView, event: FactoryEventView)
    requires
        actor.wf(),
        is_answer(actor.step(event).1),
    ensures
        (in_flight(actor) is Some && !(event is Request) && answers_request(
            actor.step(event).1,
            in_flight(actor)->0,
        ) && actor.step(event).0.phase is Idle) || (event is Request && answers_request(
            actor.step(event).1,
            event->Request_0,
        ) && actor.step(event).0 == actor),
{
    reveal(FactoryView::proceed);
    match event {
        FactoryEventView::Request(_) => {},
        FactoryEventView::Outcome(outcome) => {
            match actor.phase.job() {
                Some(job) => lemma_job_keeps_identity(job, actor.config, outcome),
                None => {},
            }
        },
    }
}

/// In a run with the given events, `request` came in some turn before
/// turn `now`.
pub open spec fn request_received(
    events: Seq<FactoryEventView>,
    request: FactoryRequestView,
    now: int,
) -> bool {
    exists|turn: int| 0 <= turn < now && #[trigger] events[turn] == FactoryEventView::Request(request)
}

/// In every run that begins at rest, the request that the actor serves
/// after any number of turns is one that came in an earlier turn.
pub proof fn lemma_request_in_flight_was_received(
    actor: FactoryView,
    events: Seq<FactoryEventView>,
    turns: int,
)
    requires
        actor.wf(),
        actor.phase is Idle,
        0 <= turns <= events.len(),
    ensures
        in_flight(actor.run(events.take(turns)).0) matches Some(request) ==> request_received(
            events,
            request,
            turns,
        ),
    decreases turns,
{
    if turns == 0 {
        assert(events.take(0) =~= Seq::empty());
    } else {
        let last = turns - 1;
        lemma_request_in_flight_was_received(actor, events, last);
        lemma_run_prefix(actor, events, last);
        let before = actor.run(events.take(last)).0;
        let now = actor.run(events.take(turns)).0;
        if in_flight(now) is Some {
            let request = in_flight(now)->0;
            lemma_step_keeps_request(before, events[last]);
            if in_flight(now) == in_flight(before) {
                let turn = choose|turn: int|
                    0 <= turn < last && #[trigger] events[turn] == FactoryEventView::Request(
                        request,
                    );
                assert(0 <= turn < turns && events[turn] == FactoryEventView::Request(request));
            } else {
                assert(events[last] == FactoryEventView::Request(request));
            }
        }
    }
}

/// Each answer goes into the slot of a request that the actor was given.
/// In every run that begins at rest, whatever its events: an answer given
/// in some turn answers a request that came in that turn or before it. It
/// goes into that request's slot, and a record in it bears the request's
/// name; the record of a channel strip has the kind that was asked for,
/// and a cross-fader exactly when that kind is cross-faded.
pub proof fn theorem_answer_matches_request(
    actor: FactoryView,
    events: Seq<FactoryEventView>,
    turn: int,
)
    requires
        actor.wf(),
        actor.phase is Idle,
        0 <= turn < events.len(),
        is_answer(actor.run(events).1[turn]),
    ensures
        exists|request: FactoryRequestView|
            #[trigger] request_received(events, request, turn + 1) && answers_request(
                actor.run(events).1[turn],
                request,
            ),
{
    let before = actor.run(events.take(turn)).0;
    lemma_run_prefix(actor, events, turn);
    lemma_step_answers_request(before, events[turn]);
    lemma_request_in_flight_was_received(actor, events, turn);
    if events[turn] is Request {
        let request = events[turn]->Request_0;
        assert(events[turn] == FactoryEventView::Request(request));
        assert(request_received(events, request, turn + 1));
    } else {
        let request = in_flight(before)->0;
        let earlier = choose|earlier: int|
            0 <= earlier < turn && #[trigger] events[earlier] == FactoryEventView::Request(request);
        assert(0 <= earlier < turn + 1 && events[earlier] == FactoryEventView::Request(request));
        assert(request_received(events, request, turn + 1));
    }
}

} // verus!
