//! The run of an output stage request, from the request to its answer.

use crate::factory::channel_strip_factory::instantiate_call;
use crate::factory::protocol::{
    BackendOutcomeView, CreateOutputStageResponseView, CreatedPluginView, FactoryActionView,
    FactoryEventView, FactoryRequestView, OutputStageReplySlot, RegisterOutputStageRequestView,
};
use crate::factory::utils::link;
use crate::factory::machine::{
    left_stage_name, right_stage_name, stage_links, FactoryView, PhaseView, StripJobView,
};
use crate::model::{
    chain_roles, ChannelStripKind, FactoryConfigView, PluginInstanceView, PluginRole,
};
use crate::traces::channel_strip::{
    job_after, lemma_job_after, lemma_strip_run_whole, strip_calls, strip_outcomes, strip_plugins,
};
use crate::traces::runs::{lemma_run_concat, lemma_run_one, lemma_run_push, outcome_events};
use crate::traces::turns::{
    lemma_step_answers_stage, lemma_step_asks_for_cross_fader, lemma_step_begins_right_leg,
    lemma_step_links_stage, lemma_step_wires_stage, stage_fader, stage_wiring,
};
use vstd::prelude::*;

verus! {

/// The outcomes of an output stage's own calls when every call succeeds:
/// the cross-fader's instance, an acknowledgement for each of the four
/// links, and the identifier that the registry gave the stage.
pub open spec fn stage_outcomes(fader: CreatedPluginView, stage_id: u32) -> Seq<BackendOutcomeView> {
    seq![
        BackendOutcomeView::PluginInstanceCreated(Some(fader)),
        BackendOutcomeView::LinkCreated,
        BackendOutcomeView::LinkCreated,
        BackendOutcomeView::LinkCreated,
        BackendOutcomeView::LinkCreated,
        BackendOutcomeView::OutputStageRegistered { id: stage_id },
    ]
}

/// An output stage's own calls, in order: the cross-fader's instance, the
/// two links of the left leg into the cross-fader's first input pair, the
/// two links of the right leg into its second, and the registration.
pub open spec fn stage_calls(
    config: FactoryConfigView,
    name: Seq<char>,
    left_id: u32,
    left_gain: PluginInstanceView,
    right_id: u32,
    right_gain: PluginInstanceView,
    fader: CreatedPluginView,
) -> Seq<FactoryActionView> {
    let cross_fader = stage_fader(config, fader);
    seq![
        instantiate_call(config, PluginRole::CrossFader),
        FactoryActionView::CreateLinkByName(link(left_gain, 0, cross_fader, 0)),
        FactoryActionView::CreateLinkByName(link(left_gain, 1, cross_fader, 1)),
        FactoryActionView::CreateLinkByName(link(right_gain, 0, cross_fader, 2)),
        FactoryActionView::CreateLinkByName(link(right_gain, 1, cross_fader, 3)),
        FactoryActionView::RegisterOutputStage(
            RegisterOutputStageRequestView {
                name,
                left_channel_strip_id: left_id,
                right_channel_strip_id: right_id,
                cross_fader_plugin_id: fader.id,
            },
        ),
    ]
}

/// The events of an output stage request whose calls all succeed: the
/// request, the outcomes of the left leg, those of the right leg, and
/// those of the stage's own calls.
pub open spec fn output_stage_events(
    name: Seq<char>,
    response_sender: OutputStageReplySlot,
    left: Seq<CreatedPluginView>,
    right: Seq<CreatedPluginView>,
    fader: CreatedPluginView,
    stage_id: u32,
) -> Seq<FactoryEventView> {
    seq![
        FactoryEventView::Request(FactoryRequestView::CreateOutputStage { name, response_sender }),
    ] + outcome_events(strip_outcomes(left)) + outcome_events(strip_outcomes(right))
        + outcome_events(stage_outcomes(fader, stage_id))
}

/// What the actor does for an output stage request whose calls all
/// succeed: the calls of a basic strip named "Left Stage", those of a
/// basic strip named "Right Stage" with the next identifier, the stage's
/// own calls, and the answer into the request's slot.
pub open spec fn output_stage_actions(
    config: FactoryConfigView,
    first_id: u32,
    name: Seq<char>,
    response_sender: OutputStageReplySlot,
    left: Seq<CreatedPluginView>,
    right: Seq<CreatedPluginView>,
    fader: CreatedPluginView,
    stage_id: u32,
) -> Seq<FactoryActionView> {
    let second_id = (first_id + 1) as u32;
    strip_calls(config, first_id, left_stage_name(), ChannelStripKind::Basic, left) + strip_calls(
        config,
        second_id,
        right_stage_name(),
        ChannelStripKind::Basic,
        right,
    ) + stage_calls(
        config,
        name,
        first_id,
        strip_plugins(config, ChannelStripKind::Basic, left).gain,
        second_id,
        strip_plugins(config, ChannelStripKind::Basic, right).gain,
        fader,
    ) + seq![
        FactoryActionView::ReplyOutputStage {
            response_sender,
            response: Ok(
                CreateOutputStageResponseView {
                    id: stage_id,
                    name,
                    left_channel_strip_id: first_id,
                    right_channel_strip_id: second_id,
                    cross_fader_plugin_id: fader.id,
                },
            ),
        },
    ]
}

/// The answer to an output stage request that was served in full.
pub open spec fn stage_answer(
    name: Seq<char>,
    response_sender: OutputStageReplySlot,
    left_id: u32,
    right_id: u32,
    fader: CreatedPluginView,
    stage_id: u32,
) -> FactoryActionView {
    FactoryActionView::ReplyOutputStage {
        response_sender,
        response: Ok(
            CreateOutputStageResponseView {
                id: stage_id,
                name,
                left_channel_strip_id: left_id,
                right_channel_strip_id: right_id,
                cross_fader_plugin_id: fader.id,
            },
        ),
    }
}

/// An actor that waits for the cross-fader of an output stage, given the
/// outcomes of the stage's own calls, makes the rest of these calls and
/// answers the request.
pub proof fn lemma_stage_run(
    actor: FactoryView,
    name: Seq<char>,
    response_sender: OutputStageReplySlot,
    left_id: u32,
    left_gain: PluginInstanceView,
    right_id: u32,
    right_gain: PluginInstanceView,
    fader: CreatedPluginView,
    stage_id: u32,
)
    requires
        actor.phase == (PhaseView::CrossFader {
            name,
            response_sender,
            left_id,
            left_gain,
            right_id,
            right_gain,
        }),
    ensures
        actor.run(outcome_events(stage_outcomes(fader, stage_id))) == (
            actor.idle(),
            stage_calls(actor.config, name, left_id, left_gain, right_id, right_gain, fader).subrange(
                1,
                6,
            ).push(stage_answer(name, response_sender, left_id, right_id, fader, stage_id)),
        ),
{
    let tail = outcome_events(stage_outcomes(fader, stage_id));
    let calls = stage_calls(actor.config, name, left_id, left_gain, right_id, right_gain, fader);
    let answer = stage_answer(name, response_sender, left_id, right_id, fader, stage_id);
    let cross_fader = stage_fader(actor.config, fader);
    let w0 = FactoryView {
        phase: stage_wiring(
            name,
            response_sender,
            left_id,
            left_gain,
            right_id,
            right_gain,
            cross_fader,
            0,
        ),
        ..actor
    };
    let w1 = FactoryView {
        phase: stage_wiring(
            name,
            response_sender,
            left_id,
            left_gain,
            right_id,
            right_gain,
            cross_fader,
            1,
        ),
        ..actor
    };
    let w2 = FactoryView {
        phase: stage_wiring(
            name,
            response_sender,
            left_id,
            left_gain,
            right_id,
            right_gain,
            cross_fader,
            2,
        ),
        ..actor
    };
    let w3 = FactoryView {
        phase: stage_wiring(
            name,
            response_sender,
            left_id,
            left_gain,
            right_id,
            right_gain,
            cross_fader,
            3,
        ),
        ..actor
    };
    let registering = FactoryView {
        phase: PhaseView::StageRegistering {
            name,
            response_sender,
            left_id,
            right_id,
            cross_fader_plugin_id: fader.id,
        },
        ..actor
    };
    let links = stage_links(left_gain, right_gain, cross_fader);
    assert(links[0] == link(left_gain, 0, cross_fader, 0));
    assert(links[1] == link(left_gain, 1, cross_fader, 1));
    assert(links[2] == link(right_gain, 0, cross_fader, 2));
    assert(links[3] == link(right_gain, 1, cross_fader, 3));
    lemma_step_wires_stage(actor, fader);
    lemma_step_links_stage(w0);
    lemma_step_links_stage(w1);
    lemma_step_links_stage(w2);
    lemma_step_links_stage(w3);
    lemma_step_answers_stage(registering, stage_id);
    assert(actor.step(tail[0]) == (w0, calls[1]));
    assert(w0.step(tail[1]) == (w1, calls[2]));
    assert(w1.step(tail[2]) == (w2, calls[3]));
    assert(w2.step(tail[3]) == (w3, calls[4]));
    assert(w3.step(tail[4]) == (registering, calls[5]));
    assert(registering.step(tail[5]) == (actor.idle(), answer));
    let e0 = Seq::<FactoryEventView>::empty();
    let e1 = e0.push(tail[0]);
    let e2 = e1.push(tail[1]);
    let e3 = e2.push(tail[2]);
    let e4 = e3.push(tail[3]);
    let e5 = e4.push(tail[4]);
    lemma_run_push(actor, e0, tail[0]);
    lemma_run_push(actor, e1, tail[1]);
    lemma_run_push(actor, e2, tail[2]);
    lemma_run_push(actor, e3, tail[3]);
    lemma_run_push(actor, e4, tail[4]);
    lemma_run_push(actor, e5, tail[5]);
    assert(e5.push(tail[5]) =~= tail);
    assert(actor.run(tail).1 =~= calls.subrange(1, 6).push(answer));
}

/// An output stage request that reaches the actor at rest begins the left
/// leg; given the outcomes of the left leg, the actor registers it and
/// begins the right leg under the next identifier.
pub proof fn lemma_left_leg_run(
    actor: FactoryView,
    name: Seq<char>,
    response_sender: OutputStageReplySlot,
    left: Seq<CreatedPluginView>,
)
    requires
        actor.phase is Idle,
        actor.next_channel_strip_id < u32::MAX - 1,
        left.len() == chain_roles(ChannelStripKind::Basic).len(),
    ensures
        ({
            let first_id = actor.next_channel_strip_id;
            let second_id = (first_id + 1) as u32;
            let request = FactoryEventView::Request(
                FactoryRequestView::CreateOutputStage { name, response_sender },
            );
            let after = FactoryView {
                phase: PhaseView::RightLeg {
                    name,
                    response_sender,
                    left_id: first_id,
                    left_gain: strip_plugins(actor.config, ChannelStripKind::Basic, left).gain,
                    job: StripJobView::start(
                        second_id,
                        right_stage_name(),
                        ChannelStripKind::Basic,
                    ),
                },
                ..actor.allocated().allocated()
            };
            actor.run(seq![request] + outcome_events(strip_outcomes(left))) == (
                after,
                strip_calls(
                    actor.config,
                    first_id,
                    left_stage_name(),
                    ChannelStripKind::Basic,
                    left,
                ).push(instantiate_call(actor.config, PluginRole::Saturator)),
            )
        }),
{
    let config = actor.config;
    let kind = ChannelStripKind::Basic;
    let first_id = actor.next_channel_strip_id;
    let request = FactoryEventView::Request(
        FactoryRequestView::CreateOutputStage { name, response_sender },
    );
    let calls = strip_calls(config, first_id, left_stage_name(), kind, left);
    lemma_job_after(config, first_id, left_stage_name(), kind, left, 0);
    lemma_run_one(actor, request);
    let begun = actor.step(request).0;
    lemma_strip_run_whole(begun, first_id, left_stage_name(), kind, left);
    lemma_run_concat(actor, seq![request], outcome_events(strip_outcomes(left)));
    let last = calls.len() - 1;
    let held = begun.with_job(job_after(config, first_id, left_stage_name(), kind, left, last));
    lemma_step_begins_right_leg(held, strip_outcomes(left)[last]);
    let end = held.step(FactoryEventView::Outcome(strip_outcomes(left)[last]));
    assert(seq![calls[0]] + calls.subrange(1, last + 1).push(end.1) =~= calls.push(end.1));
}

/// An actor that has just begun the right leg of an output stage, given
/// the outcomes of the right leg, registers it and asks for the stage's
/// cross-fader.
pub proof fn lemma_right_leg_run(
    actor: FactoryView,
    name: Seq<char>,
    response_sender: OutputStageReplySlot,
    left_id: u32,
    left_gain: PluginInstanceView,
    right_id: u32,
    right: Seq<CreatedPluginView>,
)
    requires
        actor.phase == (PhaseView::RightLeg {
            name,
            response_sender,
            left_id,
            left_gain,
            job: StripJobView::start(right_id, right_stage_name(), ChannelStripKind::Basic),
        }),
        right.len() == chain_roles(ChannelStripKind::Basic).len(),
    ensures
        ({
            let after = FactoryView {
                phase: PhaseView::CrossFader {
                    name,
                    response_sender,
                    left_id,
                    left_gain,
                    right_id,
                    right_gain: strip_plugins(actor.config, ChannelStripKind::Basic, right).gain,
                },
                ..actor
            };
            let calls = strip_calls(
                actor.config,
                right_id,
                right_stage_name(),
                ChannelStripKind::Basic,
                right,
            );
            actor.run(outcome_events(strip_outcomes(right))) == (
                after,
                calls.subrange(1, calls.len() as int).push(
                    instantiate_call(actor.config, PluginRole::CrossFader),
                ),
            )
        }),
{
    let kind = ChannelStripKind::Basic;
    lemma_job_after(actor.config, right_id, right_stage_name(), kind, right, 0);
    lemma_strip_run_whole(actor, right_id, right_stage_name(), kind, right);
    let calls = strip_calls(actor.config, right_id, right_stage_name(), kind, right);
    let last = calls.len() - 1;
    let held = actor.with_job(job_after(actor.config, right_id, right_stage_name(), kind, right, last));
    lemma_step_asks_for_cross_fader(held, strip_outcomes(right)[last]);
}

/// An output stage request that reaches the actor at rest, and whose
/// calls all succeed, is served in full: two basic strips named
/// "Left Stage" and "Right Stage" are built and registered one after the
/// other under the next two identifiers, one cross-fader is instantiated,
/// the left leg's gain is linked to the cross-fader's ports 0 and 1 and
/// the right leg's gain to its ports 2 and 3, and only then is the stage
/// registered and the request answered, into its own slot.
pub proof fn theorem_output_stage_assembly(
    actor: FactoryView,
    name: Seq<char>,
    response_sender: OutputStageReplySlot,
    left: Seq<CreatedPluginView>,
    right: Seq<CreatedPluginView>,
    fader: CreatedPluginView,
    stage_id: u32,
)
    requires
        actor.phase is Idle,
        actor.next_channel_strip_id < u32::MAX - 1,
        left.len() == chain_roles(ChannelStripKind::Basic).len(),
        right.len() == chain_roles(ChannelStripKind::Basic).len(),
    ensures
        actor.run(output_stage_events(name, response_sender, left, right, fader, stage_id)) == (
            actor.allocated().allocated(),
            output_stage_actions(
                actor.config,
                actor.next_channel_strip_id,
                name,
                response_sender,
                left,
                right,
                fader,
                stage_id,
            ),
        ),
{
    let config = actor.config;
    let kind = ChannelStripKind::Basic;
    let first_id = actor.next_channel_strip_id;
    let second_id = (first_id + 1) as u32;
    let request = FactoryEventView::Request(
        FactoryRequestView::CreateOutputStage { name, response_sender },
    );
    let left_events = outcome_events(strip_outcomes(left));
    let right_events = outcome_events(strip_outcomes(right));
    let tail = outcome_events(stage_outcomes(fader, stage_id));
    let left_calls = strip_calls(config, first_id, left_stage_name(), kind, left);
    let right_calls = strip_calls(config, second_id, right_stage_name(), kind, right);
    let left_gain = strip_plugins(config, kind, left).gain;
    let right_gain = strip_plugins(config, kind, right).gain;
    let own_calls = stage_calls(config, name, first_id, left_gain, second_id, right_gain, fader);
    let answer = stage_answer(name, response_sender, first_id, second_id, fader, stage_id);

    lemma_left_leg_run(actor, name, response_sender, left);
    let at_right = actor.run(seq![request] + left_events).0;
    lemma_right_leg_run(at_right, name, response_sender, first_id, left_gain, second_id, right);
    let at_fader = at_right.run(right_events).0;
    lemma_stage_run(
        at_fader,
        name,
        response_sender,
        first_id,
        left_gain,
        second_id,
        right_gain,
        fader,
        stage_id,
    );
    lemma_run_concat(actor, seq![request] + left_events, right_events);
    lemma_run_concat(actor, seq![request] + left_events + right_events, tail);
    lemma_job_after(config, second_id, right_stage_name(), kind, right, 0);
    assert(right_calls[0] == instantiate_call(config, PluginRole::Saturator));
    assert(own_calls[0] == instantiate_call(config, PluginRole::CrossFader));
    assert(left_calls.push(right_calls[0]) + right_calls.subrange(
        1,
        right_calls.len() as int,
    ).push(own_calls[0]) + own_calls.subrange(1, 6).push(answer) =~= left_calls + right_calls
        + own_calls + seq![answer]);
}

} // verus!
