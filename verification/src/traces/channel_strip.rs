//! The run of a channel strip request, from the request to its answer.

use crate::error::AssemblyStep;
use crate::factory::channel_strip_factory::{
    instantiate_call, lemma_strip_links_len, strip_links, wire_step, ChannelStripAssemblyView,
    StripStageView,
};
use crate::factory::protocol::{
    BackendOutcomeView, ChannelStripReplySlot, CreatedPluginView, FactoryActionView,
    FactoryEventView, FactoryRequestView,
};
use crate::factory::utils::link;
use crate::factory::machine::{
    strip_record, strip_response, FactoryView, JobProgressView, StripJobStageView, StripJobView,
};
use crate::model::{
    chain_roles, ChannelStripKind, ChannelStripPluginsView, FactoryConfigView, PluginInstanceView,
};
use crate::traces::runs::{lemma_run_concat, lemma_run_one, lemma_run_push, outcome_events};
use crate::traces::turns::{
    lemma_step_answers_channel_strip, lemma_step_carries_job, theorem_failure_is_reported,
};
use vstd::prelude::*;

verus! {

/// The instances of a strip's chain, made of what the plugin backend said
/// of each and of the implementation reference configured for its role.
pub open spec fn instances(
    config: FactoryConfigView,
    kind: ChannelStripKind,
    created: Seq<CreatedPluginView>,
) -> Seq<PluginInstanceView> {
    Seq::new(
        created.len(),
        |i: int|
            PluginInstanceView {
                id: created[i].id,
                name: created[i].name,
                uri: config.plugin_uri(chain_roles(kind)[i]),
            },
    )
}

/// The plugin set of a strip whose instances the plugin backend reported
/// as `created`, in chain order.
pub open spec fn strip_plugins(
    config: FactoryConfigView,
    kind: ChannelStripKind,
    created: Seq<CreatedPluginView>,
) -> ChannelStripPluginsView {
    ChannelStripPluginsView::from_chain(kind, instances(config, kind, created))
}

/// The outcomes of a strip's calls when every call succeeds: the
/// instances, an acknowledgement for each link, and the registry's.
pub open spec fn strip_outcomes(created: Seq<CreatedPluginView>) -> Seq<BackendOutcomeView> {
    Seq::new(created.len(), |i: int| BackendOutcomeView::PluginInstanceCreated(Some(created[i])))
        + Seq::new((2 * (created.len() - 1)) as nat, |i: int| BackendOutcomeView::LinkCreated)
        + seq![BackendOutcomeView::ChannelStripRegistered]
}

/// The calls of a strip, in order: one instance for each role of the
/// chain, then the links of the chain, then the registration.
pub open spec fn strip_calls(
    config: FactoryConfigView,
    id: u32,
    name: Seq<char>,
    kind: ChannelStripKind,
    created: Seq<CreatedPluginView>,
) -> Seq<FactoryActionView> {
    let plugins = strip_plugins(config, kind, created);
    Seq::new(chain_roles(kind).len(), |i: int| instantiate_call(config, chain_roles(kind)[i]))
        + Seq::new(
        strip_links(plugins).len(),
        |i: int| FactoryActionView::CreateLinkByName(strip_links(plugins)[i]),
    ) + seq![FactoryActionView::RegisterChannelStrip(strip_record(id, name, plugins))]
}

/// The job of a strip after `done` of its calls have succeeded.
pub open spec fn job_after(
    config: FactoryConfigView,
    id: u32,
    name: Seq<char>,
    kind: ChannelStripKind,
    created: Seq<CreatedPluginView>,
    done: int,
) -> StripJobView {
    let plugins = strip_plugins(config, kind, created);
    let stage = if done < created.len() {
        StripJobStageView::Building(
            ChannelStripAssemblyView {
                kind,
                stage: StripStageView::Instantiating {
                    created: instances(config, kind, created).take(done),
                },
            },
        )
    } else if done < created.len() + strip_links(plugins).len() {
        StripJobStageView::Building(
            ChannelStripAssemblyView {
                kind,
                stage: StripStageView::Wiring { plugins, issued: done - created.len() },
            },
        )
    } else {
        StripJobStageView::Registering(plugins)
    };
    StripJobView { id, name, stage }
}

/// A strip whose calls all succeed goes through them one by one, in the
/// order of [`strip_calls`], and is then registered.
pub proof fn lemma_job_after(
    config: FactoryConfigView,
    id: u32,
    name: Seq<char>,
    kind: ChannelStripKind,
    created: Seq<CreatedPluginView>,
    done: int,
)
    requires
        created.len() == chain_roles(kind).len(),
        0 <= done < strip_calls(config, id, name, kind, created).len(),
    ensures
        strip_calls(config, id, name, kind, created).len() == strip_outcomes(created).len(),
        strip_calls(config, id, name, kind, created).len() == 3 * created.len() - 1,
        strip_plugins(config, kind, created).kind() == kind,
        job_after(config, id, name, kind, created, 0) == StripJobView::start(id, name, kind),
        job_after(config, id, name, kind, created, done).wf(),
        job_after(config, id, name, kind, created, done).pending_call(config) == strip_calls(
            config,
            id,
            name,
            kind,
            created,
        )[done],
        job_after(config, id, name, kind, created, done).advanced(
            config,
            strip_outcomes(created)[done],
        ) == if done + 1 < strip_calls(config, id, name, kind, created).len() {
            JobProgressView::Pending(
                job_after(config, id, name, kind, created, done + 1),
                strip_calls(config, id, name, kind, created)[done + 1],
            )
        } else {
            JobProgressView::Registered {
                id,
                name,
                plugins: strip_plugins(config, kind, created),
            }
        },
{
    let plugins = strip_plugins(config, kind, created);
    let chain = instances(config, kind, created);
    lemma_strip_links_len(plugins);
    assert(chain.take(0) =~= Seq::empty());
    if done < created.len() {
        assert(chain.take(done).push(chain[done]) =~= chain.take(done + 1));
        assert(chain.take(created.len() as int) =~= chain);
    }
}

/// Given the first `done` outcomes of a strip whose calls all succeed, an
/// actor that has just begun the strip asks for the strip's next `done`
/// calls and holds the strip's job as it is after them.
pub proof fn lemma_strip_run(
    actor: FactoryView,
    id: u32,
    name: Seq<char>,
    kind: ChannelStripKind,
    created: Seq<CreatedPluginView>,
    done: int,
)
    requires
        actor.phase.job() == Some(job_after(actor.config, id, name, kind, created, 0)),
        created.len() == chain_roles(kind).len(),
        0 <= done < strip_calls(actor.config, id, name, kind, created).len(),
    ensures
        actor.run(outcome_events(strip_outcomes(created)).take(done)) == (
            actor.with_job(job_after(actor.config, id, name, kind, created, done)),
            strip_calls(actor.config, id, name, kind, created).subrange(1, done + 1),
        ),
    decreases done,
{
    let events = outcome_events(strip_outcomes(created));
    let calls = strip_calls(actor.config, id, name, kind, created);
    lemma_job_after(actor.config, id, name, kind, created, 0);
    if done == 0 {
        assert(events.take(0) =~= Seq::empty());
        assert(calls.subrange(1, 1) =~= Seq::empty());
        assert(actor.with_job(job_after(actor.config, id, name, kind, created, 0)) == actor);
    } else {
        lemma_strip_run(actor, id, name, kind, created, done - 1);
        lemma_job_after(actor.config, id, name, kind, created, done - 1);
        let before = actor.with_job(job_after(actor.config, id, name, kind, created, done - 1));
        lemma_step_carries_job(before, strip_outcomes(created)[done - 1]);
        assert(events.take(done) =~= events.take(done - 1).push(events[done - 1]));
        lemma_run_push(actor, events.take(done - 1), events[done - 1]);
        assert(calls.subrange(1, done + 1) =~= calls.subrange(1, done).push(calls[done]));
        assert(before.with_job(job_after(actor.config, id, name, kind, created, done))
            == actor.with_job(job_after(actor.config, id, name, kind, created, done)));
    }
}

/// Given all outcomes of a strip whose calls all succeed, an actor that
/// has just begun the strip makes the rest of the strip's calls and then
/// does what follows the strip's registration.
pub proof fn lemma_strip_run_whole(
    actor: FactoryView,
    id: u32,
    name: Seq<char>,
    kind: ChannelStripKind,
    created: Seq<CreatedPluginView>,
)
    requires
        actor.phase.job() == Some(job_after(actor.config, id, name, kind, created, 0)),
        created.len() == chain_roles(kind).len(),
    ensures
        ({
            let calls = strip_calls(actor.config, id, name, kind, created);
            let last = calls.len() - 1;
            let held = actor.with_job(job_after(actor.config, id, name, kind, created, last));
            let end = held.step(FactoryEventView::Outcome(strip_outcomes(created)[last]));
            &&& actor.run(outcome_events(strip_outcomes(created))) == (
                end.0,
                calls.subrange(1, last + 1).push(end.1),
            )
            &&& held.phase.job() == Some(job_after(actor.config, id, name, kind, created, last))
            &&& job_after(actor.config, id, name, kind, created, last).advanced(
                actor.config,
                strip_outcomes(created)[last],
            ) == JobProgressView::Registered {
                id,
                name,
                plugins: strip_plugins(actor.config, kind, created),
            }
        }),
{
    let events = outcome_events(strip_outcomes(created));
    let calls = strip_calls(actor.config, id, name, kind, created);
    let last = calls.len() - 1;
    lemma_job_after(actor.config, id, name, kind, created, 0);
    lemma_job_after(actor.config, id, name, kind, created, last);
    lemma_strip_run(actor, id, name, kind, created, last);
    let held = actor.with_job(job_after(actor.config, id, name, kind, created, last));
    assert(events =~= events.take(last).push(events[last]));
    lemma_run_push(actor, events.take(last), events[last]);
}

/// The events of a channel strip request whose calls all succeed: the
/// request, then the outcome of each call.
pub open spec fn channel_strip_events(
    name: Seq<char>,
    response_sender: ChannelStripReplySlot,
    kind: ChannelStripKind,
    created: Seq<CreatedPluginView>,
) -> Seq<FactoryEventView> {
    seq![
        FactoryEventView::Request(
            FactoryRequestView::CreateChannelStrip { name, response_sender, channel_type: kind },
        ),
    ] + outcome_events(strip_outcomes(created))
}

/// What the actor does for a channel strip request whose calls all
/// succeed: the strip's calls, then the answer into the request's slot.
pub open spec fn channel_strip_actions(
    config: FactoryConfigView,
    id: u32,
    name: Seq<char>,
    response_sender: ChannelStripReplySlot,
    kind: ChannelStripKind,
    created: Seq<CreatedPluginView>,
) -> Seq<FactoryActionView> {
    strip_calls(config, id, name, kind, created) + seq![
        FactoryActionView::ReplyChannelStrip {
            response_sender,
            response: Ok(strip_response(id, name, strip_plugins(config, kind, created))),
        },
    ]
}

/// A channel strip request that reaches the actor at rest, and whose calls
/// all succeed, is served in full: the strip gets the identifier at which
/// the counter stood, the calls are made in the order of [`strip_calls`],
/// the answer goes into the request's own slot and holds the plugin set
/// of the requested kind, and the actor is at rest again with its counter
/// one higher.
pub proof fn theorem_channel_strip_assembly(
    actor: FactoryView,
    name: Seq<char>,
    response_sender: ChannelStripReplySlot,
    kind: ChannelStripKind,
    created: Seq<CreatedPluginView>,
)
    requires
        actor.phase is Idle,
        actor.next_channel_strip_id < u32::MAX,
        created.len() == chain_roles(kind).len(),
    ensures
        actor.run(channel_strip_events(name, response_sender, kind, created)) == (
            actor.allocated(),
            channel_strip_actions(
                actor.config,
                actor.next_channel_strip_id,
                name,
                response_sender,
                kind,
                created,
            ),
        ),
        strip_plugins(actor.config, kind, created).cross_fader is Some <==> kind
            == ChannelStripKind::CrossFaded,
{
    let id = actor.next_channel_strip_id;
    let config = actor.config;
    let request = FactoryEventView::Request(
        FactoryRequestView::CreateChannelStrip { name, response_sender, channel_type: kind },
    );
    let outcomes = strip_outcomes(created);
    let events = outcome_events(outcomes);
    let calls = strip_calls(config, id, name, kind, created);
    let last = calls.len() - 1;
    lemma_job_after(config, id, name, kind, created, 0);
    lemma_job_after(config, id, name, kind, created, last);
    let begun = actor.step(request).0;
    lemma_run_one(actor, request);
    lemma_strip_run(begun, id, name, kind, created, last);
    let held = begun.with_job(job_after(config, id, name, kind, created, last));
    lemma_step_answers_channel_strip(held, outcomes[last]);
    lemma_run_one(held, events[last]);
    assert(events =~= events.take(last) + seq![events[last]]);
    lemma_run_concat(begun, events.take(last), seq![events[last]]);
    lemma_run_concat(actor, seq![request], events);
    assert(seq![calls[0]] + (calls.subrange(1, last + 1) + seq![held.step(events[last]).1])
        =~= channel_strip_actions(config, id, name, response_sender, kind, created));
}

/// A channel strip request one of whose calls ends badly: the calls up
/// to that one are made, in order, and nothing after it; the caller is
/// told which step failed; and the actor is at rest, fit for the next
/// request. The identifier that the strip had taken is not given again.
pub proof fn theorem_channel_strip_failure(
    actor: FactoryView,
    name: Seq<char>,
    response_sender: ChannelStripReplySlot,
    kind: ChannelStripKind,
    created: Seq<CreatedPluginView>,
    failed_at: int,
    outcome: BackendOutcomeView,
)
    requires
        actor.phase is Idle,
        actor.next_channel_strip_id < u32::MAX,
        created.len() == chain_roles(kind).len(),
        0 <= failed_at < strip_calls(
            actor.config,
            actor.next_channel_strip_id,
            name,
            kind,
            created,
        ).len(),
        !outcome.answers(
            job_after(
                actor.config,
                actor.next_channel_strip_id,
                name,
                kind,
                created,
                failed_at,
            ).pending_step(),
        ),
    ensures
        actor.run(
            channel_strip_events(name, response_sender, kind, created).take(failed_at + 1).push(
                FactoryEventView::Outcome(outcome),
            ),
        ) == (
            actor.allocated(),
            strip_calls(actor.config, actor.next_channel_strip_id, name, kind, created).take(
                failed_at + 1,
            ).push(
                FactoryActionView::ReplyChannelStrip {
                    response_sender,
                    response: Err(
                        outcome.failure_at(
                            job_after(
                                actor.config,
                                actor.next_channel_strip_id,
                                name,
                                kind,
                                created,
                                failed_at,
                            ).pending_step(),
                        ),
                    ),
                },
            ),
        ),
        actor.allocated().phase is Idle,
        job_after(
            actor.config,
            actor.next_channel_strip_id,
            name,
            kind,
            created,
            failed_at,
        ).pending_step() == if failed_at < created.len() {
            AssemblyStep::Instantiate { role: chain_roles(kind)[failed_at] }
        } else if failed_at < 3 * created.len() - 2 {
            wire_step(kind, failed_at - created.len())
        } else {
            AssemblyStep::RegisterChannelStrip
        },
{
    let id = actor.next_channel_strip_id;
    let config = actor.config;
    let request = FactoryEventView::Request(
        FactoryRequestView::CreateChannelStrip { name, response_sender, channel_type: kind },
    );
    let events = outcome_events(strip_outcomes(created));
    let calls = strip_calls(config, id, name, kind, created);
    let bad = FactoryEventView::Outcome(outcome);
    lemma_job_after(config, id, name, kind, created, 0);
    lemma_job_after(config, id, name, kind, created, failed_at);
    lemma_strip_links_len(strip_plugins(config, kind, created));
    lemma_run_one(actor, request);
    let begun = actor.step(request).0;
    lemma_strip_run(begun, id, name, kind, created, failed_at);
    let held = begun.with_job(job_after(config, id, name, kind, created, failed_at));
    theorem_failure_is_reported(held, outcome);
    lemma_run_push(begun, events.take(failed_at), bad);
    lemma_run_concat(actor, seq![request], events.take(failed_at).push(bad));
    assert(seq![request] + events.take(failed_at).push(bad) =~= channel_strip_events(
        name,
        response_sender,
        kind,
        created,
    ).take(failed_at + 1).push(bad));
    assert(seq![calls[0]] + calls.subrange(1, failed_at + 1).push(held.step(bad).1)
        =~= calls.take(failed_at + 1).push(held.step(bad).1));
}

} // verus!
