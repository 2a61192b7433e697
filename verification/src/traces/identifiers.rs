//! Channel strip identifiers over whole runs: consecutive for requests
//! served one after the other, and in rising order whatever happens.

use crate::factory::protocol::{
    ChannelStripReplySlot, CreatedPluginView, FactoryActionView, FactoryEventView,
};
use crate::factory::machine::{lemma_job_keeps_identity, FactoryView};
use crate::model::{chain_roles, ChannelStripKind, FactoryConfigView};
use crate::traces::channel_strip::{
    channel_strip_actions, channel_strip_events, instances, theorem_channel_strip_assembly,
};
use crate::traces::runs::{lemma_run_concat, lemma_run_wf, lemma_step_wf};
use vstd::prelude::*;

verus! {

/// A channel strip request together with what the plugin backend will
/// say of the strip's instances.
pub struct StripOrder {
    pub name: Seq<char>,
    pub response_sender: ChannelStripReplySlot,
    pub kind: ChannelStripKind,
    pub created: Seq<CreatedPluginView>,
}

/// The events of channel strip requests that come one after the other and
/// whose calls all succeed.
pub open spec fn session_events(orders: Seq<StripOrder>) -> Seq<FactoryEventView>
    decreases orders.len(),
{
    if orders.len() == 0 {
        Seq::empty()
    } else {
        let order = orders.last();
        session_events(orders.drop_last()) + channel_strip_events(
            order.name,
            order.response_sender,
            order.kind,
            order.created,
        )
    }
}

/// What the actor does for channel strip requests that come one after the
/// other and whose calls all succeed: it serves each in full, and the
/// strip of request number `i` gets the identifier `first_id + i`.
pub open spec fn session_actions(config: FactoryConfigView, first_id: u32, orders: Seq<StripOrder>)
    -> Seq<FactoryActionView>
    decreases orders.len(),
{
    if orders.len() == 0 {
        Seq::empty()
    } else {
        let order = orders.last();
        session_actions(config, first_id, orders.drop_last()) + channel_strip_actions(
            config,
            (first_id + orders.len() - 1) as u32,
            order.name,
            order.response_sender,
            order.kind,
            order.created,
        )
    }
}

/// Channel strip requests served one after the other get consecutive
/// identifiers, without gaps or repeats, whatever their kinds: from an
/// actor at rest whose counter stands at `c`, request number `i` is
/// built, registered and answered under the identifier `c + i`, and the
/// counter ends at `c` plus the number of requests. A new actor starts
/// at 0.
pub proof fn theorem_sequential_identifiers(actor: FactoryView, orders: Seq<StripOrder>)
    requires
        actor.phase is Idle,
        actor.next_channel_strip_id + orders.len() <= u32::MAX,
        forall|i: int|
            0 <= i < orders.len() ==> (#[trigger] orders[i]).created.len() == chain_roles(
                orders[i].kind,
            ).len(),
    ensures
        actor.run(session_events(orders)) == (
            FactoryView {
                next_channel_strip_id: (actor.next_channel_strip_id + orders.len()) as u32,
                ..actor
            },
            session_actions(actor.config, actor.next_channel_strip_id, orders),
        ),
    decreases orders.len(),
{
    if orders.len() > 0 {
        let earlier = orders.drop_last();
        let order = orders.last();
        theorem_sequential_identifiers(actor, earlier);
        let rested = FactoryView {
            next_channel_strip_id: (actor.next_channel_strip_id + earlier.len()) as u32,
            ..actor
        };
        theorem_channel_strip_assembly(
            rested,
            order.name,
            order.response_sender,
            order.kind,
            order.created,
        );
        lemma_run_concat(
            actor,
            session_events(earlier),
            channel_strip_events(order.name, order.response_sender, order.kind, order.created),
        );
    }
}

/// The lowest identifier under which the actor may still send a strip to
/// the registry: that of the strip being assembled, or else the counter.
pub open spec fn registry_floor(actor: FactoryView) -> int {
    match actor.phase.job() {
        Some(job) => if job.stage is Building {
            job.id as int
        } else {
            actor.next_channel_strip_id as int
        },
        None => actor.next_channel_strip_id as int,
    }
}

/// One turn never lowers the floor of the identifiers that may still be
/// registered, and a strip that goes to the registry in this turn has an
/// identifier between the floor before and the floor after.
pub proof fn lemma_step_raises_floor(actor: FactoryView, event: FactoryEventView)
    requires
        actor.wf(),
    ensures
        registry_floor(actor) <= registry_floor(actor.step(event).0) <= actor.step(
            event,
        ).0.next_channel_strip_id,
        actor.step(event).1 matches FactoryActionView::RegisterChannelStrip(record) ==> registry_floor(
            actor,
        ) <= record.id < registry_floor(actor.step(event).0),
{
    reveal(FactoryView::proceed);
    lemma_step_wf(actor, event);
    match event {
        FactoryEventView::Request(_) => {},
        FactoryEventView::Outcome(outcome) => {
            match actor.phase.job() {
                Some(job) => lemma_job_keeps_identity(job, actor.config, outcome),
                None => {},
            }
        },
    }
}

/// Whatever events reach the actor and in whatever order, requests that
/// come while another is in flight among them, the strips that it sends to
/// the registry have identifiers in strictly rising order: none is used
/// twice and none comes out of turn. All of them lie below the counter.
pub proof fn theorem_identifiers_in_order(actor: FactoryView, events: Seq<FactoryEventView>)
    requires
        actor.wf(),
    ensures
        registry_floor(actor) <= registry_floor(actor.run(events).0) <= actor.run(
            events,
        ).0.next_channel_strip_id,
        forall|i: int|
            0 <= i < events.len() ==> (#[trigger] actor.run(events).1[i]
                matches FactoryActionView::RegisterChannelStrip(record) ==> registry_floor(actor)
                <= record.id < registry_floor(actor.run(events).0)),
        forall|i: int, j: int|
            0 <= i < j < events.len() ==> (#[trigger] actor.run(events).1[i]
                matches FactoryActionView::RegisterChannelStrip(first) ==> (
            #[trigger] actor.run(events).1[j] matches FactoryActionView::RegisterChannelStrip(
                second,
            ) ==> first.id < second.id)),
    decreases events.len(),
{
    lemma_run_wf(actor, events);
    if events.len() > 0 {
        let earlier = events.drop_last();
        theorem_identifiers_in_order(actor, earlier);
        lemma_run_wf(actor, earlier);
        lemma_step_raises_floor(actor.run(earlier).0, events.last());
        let actions = actor.run(events).1;
        assert forall|i: int| 0 <= i < earlier.len() implies actions[i] == actor.run(earlier).1[i] by {}
    }
}

} // verus!
