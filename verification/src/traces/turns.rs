//! Single turns of the actor, each said outright: what the actor does when
//! a strip is registered, when a link of a stage is acknowledged, when a
//! backend fails.

use crate::error::{AssemblyError, FailureCause};
use crate::factory::protocol::{
    BackendOutcomeView, CreateOutputStageResponseView, CreatedPluginView, FactoryActionView,
    FactoryEventView, OutputStageReplySlot,
};
use crate::factory::utils::link;
use crate::factory::machine::{
    right_stage_name, strip_response, FactoryView, PhaseView, StripJobView,
};
use crate::model::{ChannelStripKind, FactoryConfigView, PluginInstanceView, PluginRole};
use vstd::prelude::*;

verus! {

/// While the strip job in flight goes on, the actor only carries it: the
/// job's next call is the actor's action.
pub proof fn lemma_step_carries_job(actor: FactoryView, outcome: BackendOutcomeView)
    requires
        actor.phase.job() is Some,
        actor.phase.job()->0.advanced(actor.config, outcome) is Pending,
    ensures
        actor.step(FactoryEventView::Outcome(outcome)) == (
            actor.with_job(actor.phase.job()->0.advanced(actor.config, outcome)->Pending_0),
            actor.phase.job()->0.advanced(actor.config, outcome)->Pending_1,
        ),
{
    reveal(FactoryView::proceed);
}

/// When the registry acknowledges the strip of a channel strip request,
/// the request is answered with the strip's record and the actor comes to
/// rest.
pub proof fn lemma_step_answers_channel_strip(actor: FactoryView, outcome: BackendOutcomeView)
    requires
        actor.phase is ChannelStrip,
        actor.phase.job()->0.advanced(actor.config, outcome) is Registered,
    ensures
        actor.step(FactoryEventView::Outcome(outcome)) == (
            actor.idle(),
            FactoryActionView::ReplyChannelStrip {
                response_sender: actor.phase->ChannelStrip_response_sender,
                response: Ok(
                    strip_response(
                        actor.phase.job()->0.advanced(actor.config, outcome)->Registered_id,
                        actor.phase.job()->0.advanced(actor.config, outcome)->Registered_name,
                        actor.phase.job()->0.advanced(actor.config, outcome)->Registered_plugins,
                    ),
                ),
            },
        ),
{
    reveal(FactoryView::proceed);
}

/// When the registry acknowledges the left leg of an output stage, the
/// right leg is begun under the next identifier.
pub proof fn lemma_step_begins_right_leg(actor: FactoryView, outcome: BackendOutcomeView)
    requires
        actor.phase is LeftLeg,
        actor.phase.job()->0.advanced(actor.config, outcome) is Registered,
    ensures
        actor.step(FactoryEventView::Outcome(outcome)) == actor.allocated().moved(
            PhaseView::RightLeg {
                name: actor.phase->LeftLeg_name,
                response_sender: actor.phase->LeftLeg_response_sender,
                left_id: actor.phase.job()->0.advanced(actor.config, outcome)->Registered_id,
                left_gain: actor.phase.job()->0.advanced(
                    actor.config,
                    outcome,
                )->Registered_plugins.gain,
                job: StripJobView::start(
                    actor.next_channel_strip_id,
                    right_stage_name(),
                    ChannelStripKind::Basic,
                ),
            },
        ),
{
    reveal(FactoryView::proceed);
}

/// When the registry acknowledges the right leg of an output stage, the
/// stage's cross-fader is asked for.
pub proof fn lemma_step_asks_for_cross_fader(actor: FactoryView, outcome: BackendOutcomeView)
    requires
        actor.phase is RightLeg,
        actor.phase.job()->0.advanced(actor.config, outcome) is Registered,
    ensures
        actor.step(FactoryEventView::Outcome(outcome)) == actor.moved(
            PhaseView::CrossFader {
                name: actor.phase->RightLeg_name,
                response_sender: actor.phase->RightLeg_response_sender,
                left_id: actor.phase->RightLeg_left_id,
                left_gain: actor.phase->RightLeg_left_gain,
                right_id: actor.phase.job()->0.advanced(actor.config, outcome)->Registered_id,
                right_gain: actor.phase.job()->0.advanced(
                    actor.config,
                    outcome,
                )->Registered_plugins.gain,
            },
        ),
{
    reveal(FactoryView::proceed);
}

/// The cross-fader of an output stage, made of what the plugin backend
/// said of it.
pub open spec fn stage_fader(config: FactoryConfigView, fader: CreatedPluginView)
    -> PluginInstanceView {
    PluginInstanceView {
        id: fader.id,
        name: fader.name,
        uri: config.plugin_uri(PluginRole::CrossFader),
    }
}

/// The phase in which link number `issued` of an output stage is awaited.
pub open spec fn stage_wiring(
    name: Seq<char>,
    response_sender: OutputStageReplySlot,
    left_id: u32,
    left_gain: PluginInstanceView,
    right_id: u32,
    right_gain: PluginInstanceView,
    cross_fader: PluginInstanceView,
    issued: int,
) -> PhaseView {
    PhaseView::StageWiring {
        name,
        response_sender,
        left_id,
        left_gain,
        right_id,
        right_gain,
        cross_fader,
        issued,
    }
}

/// When the plugin backend has made the cross-fader of an output stage,
/// the first link of the stage is asked for.
pub proof fn lemma_step_wires_stage(actor: FactoryView, fader: CreatedPluginView)
    requires
        actor.phase is CrossFader,
    ensures
        actor.step(
            FactoryEventView::Outcome(BackendOutcomeView::PluginInstanceCreated(Some(fader))),
        ) == actor.moved(
            stage_wiring(
                actor.phase->CrossFader_name,
                actor.phase->CrossFader_response_sender,
                actor.phase->CrossFader_left_id,
                actor.phase->CrossFader_left_gain,
                actor.phase->CrossFader_right_id,
                actor.phase->CrossFader_right_gain,
                stage_fader(actor.config, fader),
                0,
            ),
        ),
{
    reveal(FactoryView::proceed);
}

/// When a link of an output stage is acknowledged, the next one is asked
/// for; after the fourth, the stage goes to the registry.
pub proof fn lemma_step_links_stage(actor: FactoryView)
    requires
        actor.phase is StageWiring,
    ensures
        actor.step(FactoryEventView::Outcome(BackendOutcomeView::LinkCreated)) == actor.moved(
            if actor.phase->StageWiring_issued + 1 < 4 {
                stage_wiring(
                    actor.phase->StageWiring_name,
                    actor.phase->StageWiring_response_sender,
                    actor.phase->StageWiring_left_id,
                    actor.phase->StageWiring_left_gain,
                    actor.phase->StageWiring_right_id,
                    actor.phase->StageWiring_right_gain,
                    actor.phase->StageWiring_cross_fader,
                    actor.phase->StageWiring_issued + 1,
                )
            } else {
                PhaseView::StageRegistering {
                    name: actor.phase->StageWiring_name,
                    response_sender: actor.phase->StageWiring_response_sender,
                    left_id: actor.phase->StageWiring_left_id,
                    right_id: actor.phase->StageWiring_right_id,
                    cross_fader_plugin_id: actor.phase->StageWiring_cross_fader.id,
                }
            },
        ),
{
    reveal(FactoryView::proceed);
}

/// When the registry has stored an output stage, the request is answered
/// with the stage's record and the actor comes to rest.
pub proof fn lemma_step_answers_stage(actor: FactoryView, stage_id: u32)
    requires
        actor.phase is StageRegistering,
    ensures
        actor.step(
            FactoryEventView::Outcome(BackendOutcomeView::OutputStageRegistered { id: stage_id }),
        ) == (
            actor.idle(),
            FactoryActionView::ReplyOutputStage {
                response_sender: actor.phase->StageRegistering_response_sender,
                response: Ok(
                    CreateOutputStageResponseView {
                        id: stage_id,
                        name: actor.phase->StageRegistering_name,
                        left_channel_strip_id: actor.phase->StageRegistering_left_id,
                        right_channel_strip_id: actor.phase->StageRegistering_right_id,
                        cross_fader_plugin_id: actor.phase->StageRegistering_cross_fader_plugin_id,
                    },
                ),
            },
        ),
{
    reveal(FactoryView::proceed);
}

/// Whatever a backend does wrong, the request in flight is given up and
/// its caller told so: an outcome that is not the good end of the awaited
/// call brings the actor to rest, with its counter where it was, and the
/// answer into the request's slot names the step that failed. A failed
/// call is the backend's fault, any other outcome a breach of protocol.
pub proof fn theorem_failure_is_reported(actor: FactoryView, outcome: BackendOutcomeView)
    requires
        actor.wf(),
        actor.pending_step() is Some,
        !outcome.answers(actor.pending_step()->0),
    ensures
        actor.step(FactoryEventView::Outcome(outcome)) == (
            actor.idle(),
            actor.failure_answer(outcome.failure_at(actor.pending_step()->0)),
        ),
        actor.idle().wf(),
        outcome.failure_at(actor.pending_step()->0) == (AssemblyError::Failed {
            step: actor.pending_step()->0,
            cause: if outcome is Failed {
                FailureCause::BackendUnavailable
            } else {
                FailureCause::ProtocolViolation
            },
        }),
{
    reveal(FactoryView::proceed);
}

} // verus!
