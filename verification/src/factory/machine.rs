//! The actor as a mathematical machine: its states, and what one turn
//! makes of a state and an event.

use crate::error::{AssemblyError, AssemblyStep};
use crate::factory::channel_strip_factory::{
    instantiate_call, lemma_assembly_keeps_kind, ChannelStripAssemblyView, StripProgressView,
};
use crate::factory::protocol::{
    BackendOutcomeView, ChannelStripReplySlot, CreateChannelStripResponseView,
    CreateOutputStageResponseView, FactoryActionView, FactoryEventView, FactoryRequestView,
    OutputStageReplySlot, PmxChannelStripView, RegisterOutputStageRequestView,
};
use crate::factory::utils::{second_pair_links, stereo_links, CreateLinkByNameRequestView};
use crate::model::{
    ChannelStripKind, ChannelStripPluginsView, FactoryConfigView, PluginInstanceView, PluginRole,
};
use vstd::prelude::*;

verus! {

/// The record under which a strip goes to the registry.
pub open spec fn strip_record(id: u32, name: Seq<char>, plugins: ChannelStripPluginsView)
    -> PmxChannelStripView {
    PmxChannelStripView {
        id,
        name,
        channel_type: plugins.kind(),
        cross_fader_plugin_id: match plugins.cross_fader {
            Some(fader) => Some(fader.id),
            None => None,
        },
        saturator_plugin_id: plugins.saturator.id,
        compressor_plugin_id: plugins.compressor.id,
        equalizer_plugin_id: plugins.equalizer.id,
        gain_plugin_id: plugins.gain.id,
    }
}

/// The record with which a channel strip request is answered.
pub open spec fn strip_response(id: u32, name: Seq<char>, plugins: ChannelStripPluginsView)
    -> CreateChannelStripResponseView {
    CreateChannelStripResponseView { id, name, plugins, channel_type: plugins.kind() }
}

/// The links of an output stage, in the order in which they are made: the
/// left leg into the cross-fader's first input pair, then the right leg
/// into its second.
pub open spec fn stage_links(
    left_gain: PluginInstanceView,
    right_gain: PluginInstanceView,
    cross_fader: PluginInstanceView,
) -> Seq<CreateLinkByNameRequestView> {
    stereo_links(left_gain, cross_fader) + second_pair_links(right_gain, cross_fader)
}

/// No link of an output stage is asked for twice: the four links differ
/// from each other, whatever the plugins are called.
pub proof fn lemma_stage_links_differ(
    left_gain: PluginInstanceView,
    right_gain: PluginInstanceView,
    cross_fader: PluginInstanceView,
)
    ensures
        stage_links(left_gain, right_gain, cross_fader).len() == 4,
        forall|i: int, j: int|
            0 <= i < j < 4 ==> #[trigger] stage_links(left_gain, right_gain, cross_fader)[i]
                != #[trigger] stage_links(left_gain, right_gain, cross_fader)[j],
{
    let links = stage_links(left_gain, right_gain, cross_fader);
    assert(links[0].input_port_id == 0);
    assert(links[1].input_port_id == 1);
    assert(links[2].input_port_id == 2);
    assert(links[3].input_port_id == 3);
}

/// The step during which a leg of an output stage is linked to the
/// cross-fader.
pub open spec fn leg_wire_step() -> AssemblyStep {
    AssemblyStep::Wire { from: PluginRole::Gain, to: PluginRole::CrossFader }
}

/// Name of the strip that is the left leg of every output stage.
pub open spec fn left_stage_name() -> Seq<char> {
    "Left Stage"@
}

/// Name of the strip that is the right leg of every output stage.
pub open spec fn right_stage_name() -> Seq<char> {
    "Right Stage"@
}

/// Mathematical value of how far a strip has come on its way into the
/// registry.
pub enum StripJobStageView {
    /// The assembler is at work.
    Building(ChannelStripAssemblyView),
    /// The strip is built; the registry's acknowledgement is awaited.
    Registering(ChannelStripPluginsView),
}

/// Mathematical value of a strip on its way into the registry.
pub struct StripJobView {
    pub id: u32,
    pub name: Seq<char>,
    pub stage: StripJobStageView,
}

/// Mathematical value of what a strip job has come to after an outcome.
pub enum JobProgressView {
    Pending(StripJobView, FactoryActionView),
    Registered { id: u32, name: Seq<char>, plugins: ChannelStripPluginsView },
    Failed(AssemblyError),
}

impl StripJobView {
    /// The job of a strip of which nothing exists yet.
    pub open spec fn start(id: u32, name: Seq<char>, kind: ChannelStripKind) -> Self {
        StripJobView {
            id,
            name,
            stage: StripJobStageView::Building(ChannelStripAssemblyView::start(kind)),
        }
    }

    pub open spec fn wf(self) -> bool {
        match self.stage {
            StripJobStageView::Building(assembly) => assembly.wf(),
            StripJobStageView::Registering(_) => true,
        }
    }

    /// The kind of the strip.
    pub open spec fn kind(self) -> ChannelStripKind {
        match self.stage {
            StripJobStageView::Building(assembly) => assembly.kind,
            StripJobStageView::Registering(plugins) => plugins.kind(),
        }
    }

    /// The step whose outcome the job waits for.
    pub open spec fn pending_step(self) -> AssemblyStep {
        match self.stage {
            StripJobStageView::Building(assembly) => assembly.pending_step(),
            StripJobStageView::Registering(_) => AssemblyStep::RegisterChannelStrip,
        }
    }

    /// The call whose outcome the job waits for.
    pub open spec fn pending_call(self, config: FactoryConfigView) -> FactoryActionView {
        match self.stage {
            StripJobStageView::Building(assembly) => assembly.pending_call(config),
            StripJobStageView::Registering(plugins) => FactoryActionView::RegisterChannelStrip(
                strip_record(self.id, self.name, plugins),
            ),
        }
    }

    /// The job after the outcome of the awaited call. A strip goes to the
    /// registry as soon as its last link is acknowledged, and is done when
    /// the registry has acknowledged it.
    pub open spec fn advanced(self, config: FactoryConfigView, outcome: BackendOutcomeView)
        -> JobProgressView {
        match self.stage {
            StripJobStageView::Building(assembly) => match assembly.advanced(config, outcome) {
                StripProgressView::Pending(next, call) => JobProgressView::Pending(
                    StripJobView { stage: StripJobStageView::Building(next), ..self },
                    call,
                ),
                StripProgressView::Complete(plugins) => {
                    let next = StripJobView {
                        stage: StripJobStageView::Registering(plugins),
                        ..self
                    };
                    JobProgressView::Pending(next, next.pending_call(config))
                },
                StripProgressView::Failed(error) => JobProgressView::Failed(error),
            },
            StripJobStageView::Registering(plugins) => match outcome {
                BackendOutcomeView::ChannelStripRegistered => JobProgressView::Registered {
                    id: self.id,
                    name: self.name,
                    plugins,
                },
                _ => JobProgressView::Failed(
                    outcome.failure_at(AssemblyStep::RegisterChannelStrip),
                ),
            },
        }
    }
}

/// Mathematical value of what the actor is doing.
pub enum PhaseView {
    /// No request is in flight.
    Idle,
    /// A channel strip request is in flight.
    ChannelStrip { response_sender: ChannelStripReplySlot, job: StripJobView },
    /// An output stage request is in flight; its left leg is being made.
    LeftLeg { name: Seq<char>, response_sender: OutputStageReplySlot, job: StripJobView },
    /// The left leg is registered; the right leg is being made.
    RightLeg {
        name: Seq<char>,
        response_sender: OutputStageReplySlot,
        left_id: u32,
        left_gain: PluginInstanceView,
        job: StripJobView,
    },
    /// Both legs are registered; the cross-fader's instance is awaited.
    CrossFader {
        name: Seq<char>,
        response_sender: OutputStageReplySlot,
        left_id: u32,
        left_gain: PluginInstanceView,
        right_id: u32,
        right_gain: PluginInstanceView,
    },
    /// The acknowledgement of link number `issued` of the stage is awaited.
    StageWiring {
        name: Seq<char>,
        response_sender: OutputStageReplySlot,
        left_id: u32,
        left_gain: PluginInstanceView,
        right_id: u32,
        right_gain: PluginInstanceView,
        cross_fader: PluginInstanceView,
        issued: int,
    },
    /// Both legs are linked; the registry's answer for the stage is awaited.
    StageRegistering {
        name: Seq<char>,
        response_sender: OutputStageReplySlot,
        left_id: u32,
        right_id: u32,
        cross_fader_plugin_id: u32,
    },
}

/// A strip job keeps its identifier, its name and its kind from its first
/// call to its registration, and stays sound on the way.
pub proof fn lemma_job_keeps_identity(
    job: StripJobView,
    config: FactoryConfigView,
    outcome: BackendOutcomeView,
)
    requires
        job.wf(),
    ensures
        match job.advanced(config, outcome) {
            JobProgressView::Pending(next, call) => {
                &&& next.wf()
                &&& next.id == job.id
                &&& next.name == job.name
                &&& next.kind() == job.kind()
                &&& call == next.pending_call(config)
            },
            JobProgressView::Registered { id, name, plugins } => {
                &&& id == job.id
                &&& name == job.name
                &&& plugins.kind() == job.kind()
            },
            JobProgressView::Failed(_) => true,
        },
{
    match job.stage {
        StripJobStageView::Building(assembly) => lemma_assembly_keeps_kind(
            assembly,
            config,
            outcome,
        ),
        StripJobStageView::Registering(_) => {},
    }
}

impl PhaseView {
    /// The strip job that the phase holds, if any.
    pub open spec fn job(self) -> Option<StripJobView> {
        match self {
            PhaseView::ChannelStrip { job, .. } => Some(job),
            PhaseView::LeftLeg { job, .. } => Some(job),
            PhaseView::RightLeg { job, .. } => Some(job),
            _ => None,
        }
    }

    /// The phase with another strip job in place of the one it holds.
    pub open spec fn with_job(self, next: StripJobView) -> PhaseView {
        match self {
            PhaseView::ChannelStrip { response_sender, .. } => PhaseView::ChannelStrip {
                response_sender,
                job: next,
            },
            PhaseView::LeftLeg { name, response_sender, .. } => PhaseView::LeftLeg {
                name,
                response_sender,
                job: next,
            },
            PhaseView::RightLeg { name, response_sender, left_id, left_gain, .. } => {
                PhaseView::RightLeg { name, response_sender, left_id, left_gain, job: next }
            },
            _ => self,
        }
    }
}

/// Mathematical value of a [`Factory`].
pub struct FactoryView {
    pub config: FactoryConfigView,
    pub next_channel_strip_id: u32,
    pub phase: PhaseView,
}

/// The action that answers a request with a failure.
pub open spec fn refusal(request: FactoryRequestView, error: AssemblyError) -> FactoryActionView {
    match request {
        FactoryRequestView::CreateChannelStrip { response_sender, .. } => {
            FactoryActionView::ReplyChannelStrip { response_sender, response: Err(error) }
        },
        FactoryRequestView::CreateOutputStage { response_sender, .. } => {
            FactoryActionView::ReplyOutputStage { response_sender, response: Err(error) }
        },
    }
}

impl FactoryView {
    /// The actor before its first request.
    pub open spec fn start(config: FactoryConfigView) -> Self {
        FactoryView { config, next_channel_strip_id: 0, phase: PhaseView::Idle }
    }

    /// The actor with another strip job in place of the one in flight.
    pub open spec fn with_job(self, next: StripJobView) -> Self {
        FactoryView { phase: self.phase.with_job(next), ..self }
    }

    /// The actor at rest, with its counter where it is.
    pub open spec fn idle(self) -> Self {
        FactoryView { phase: PhaseView::Idle, ..self }
    }

    /// Every identifier in use lies below the counter, the legs of a stage
    /// are numbered left before right, and while the left leg is being made
    /// an identifier is left for the right one.
    pub open spec fn wf(self) -> bool {
        match self.phase {
            PhaseView::Idle => true,
            PhaseView::ChannelStrip { job, .. } => {
                &&& job.wf()
                &&& job.id < self.next_channel_strip_id
            },
            PhaseView::LeftLeg { job, .. } => {
                &&& job.wf()
                &&& job.kind() == ChannelStripKind::Basic
                &&& job.id < self.next_channel_strip_id < u32::MAX
            },
            PhaseView::RightLeg { left_id, job, .. } => {
                &&& job.wf()
                &&& job.kind() == ChannelStripKind::Basic
                &&& left_id < job.id < self.next_channel_strip_id
            },
            PhaseView::CrossFader { left_id, right_id, .. } => left_id < right_id
                < self.next_channel_strip_id,
            PhaseView::StageWiring { left_id, right_id, issued, .. } => {
                &&& left_id < right_id < self.next_channel_strip_id
                &&& 0 <= issued < 4
            },
            PhaseView::StageRegistering { left_id, right_id, .. } => left_id < right_id
                < self.next_channel_strip_id,
        }
    }

    /// The call or answer that the actor last asked for, as far as its
    /// state tells: at rest, that is the next request.
    pub open spec fn pending_action(self) -> FactoryActionView {
        match self.phase {
            PhaseView::Idle => FactoryActionView::AwaitRequest,
            PhaseView::ChannelStrip { job, .. } => job.pending_call(self.config),
            PhaseView::LeftLeg { job, .. } => job.pending_call(self.config),
            PhaseView::RightLeg { job, .. } => job.pending_call(self.config),
            PhaseView::CrossFader { .. } => instantiate_call(self.config, PluginRole::CrossFader),
            PhaseView::StageWiring { left_gain, right_gain, cross_fader, issued, .. } => {
                FactoryActionView::CreateLinkByName(
                    stage_links(left_gain, right_gain, cross_fader)[issued],
                )
            },
            PhaseView::StageRegistering {
                name,
                left_id,
                right_id,
                cross_fader_plugin_id,
                ..
            } => FactoryActionView::RegisterOutputStage(
                RegisterOutputStageRequestView {
                    name,
                    left_channel_strip_id: left_id,
                    right_channel_strip_id: right_id,
                    cross_fader_plugin_id,
                },
            ),
        }
    }

    /// The step whose outcome the actor waits for, where a request is in
    /// flight.
    pub open spec fn pending_step(self) -> Option<AssemblyStep> {
        match self.phase {
            PhaseView::Idle => None,
            PhaseView::ChannelStrip { job, .. } => Some(job.pending_step()),
            PhaseView::LeftLeg { job, .. } => Some(job.pending_step()),
            PhaseView::RightLeg { job, .. } => Some(job.pending_step()),
            PhaseView::CrossFader { .. } => Some(
                AssemblyStep::Instantiate { role: PluginRole::CrossFader },
            ),
            PhaseView::StageWiring { .. } => Some(leg_wire_step()),
            PhaseView::StageRegistering { .. } => Some(AssemblyStep::RegisterOutputStage),
        }
    }

    /// The answer that tells the caller of the request in flight that it
    /// failed.
    pub open spec fn failure_answer(self, error: AssemblyError) -> FactoryActionView {
        match self.phase {
            PhaseView::Idle => FactoryActionView::AwaitRequest,
            PhaseView::ChannelStrip { response_sender, .. } => FactoryActionView::ReplyChannelStrip {
                response_sender,
                response: Err(error),
            },
            PhaseView::LeftLeg { response_sender, .. } => FactoryActionView::ReplyOutputStage {
                response_sender,
                response: Err(error),
            },
            PhaseView::RightLeg { response_sender, .. } => FactoryActionView::ReplyOutputStage {
                response_sender,
                response: Err(error),
            },
            PhaseView::CrossFader { response_sender, .. } => FactoryActionView::ReplyOutputStage {
                response_sender,
                response: Err(error),
            },
            PhaseView::StageWiring { response_sender, .. } => FactoryActionView::ReplyOutputStage {
                response_sender,
                response: Err(error),
            },
            PhaseView::StageRegistering { response_sender, .. } => {
                FactoryActionView::ReplyOutputStage { response_sender, response: Err(error) }
            },
        }
    }

    /// The actor after it has moved into `phase`, with the call that this
    /// phase waits for.
    pub open spec fn moved(self, phase: PhaseView) -> (FactoryView, FactoryActionView) {
        let next = FactoryView { phase, ..self };
        (next, next.pending_action())
    }

    /// The actor after it has taken the next identifier.
    pub open spec fn allocated(self) -> Self {
        FactoryView {
            next_channel_strip_id: (self.next_channel_strip_id + 1) as u32,
            ..self
        }
    }

    /// What the actor at rest does with a request. A channel strip takes
    /// one identifier, an output stage two; where the counter cannot give
    /// them the request is refused and nothing else happens. Otherwise the
    /// first identifier is taken and the first strip is begun.
    pub open spec fn accept(self, request: FactoryRequestView) -> (FactoryView, FactoryActionView) {
        match request {
            FactoryRequestView::CreateChannelStrip { name, response_sender, channel_type } => {
                if self.next_channel_strip_id < u32::MAX {
                    self.allocated().moved(
                        PhaseView::ChannelStrip {
                            response_sender,
                            job: StripJobView::start(self.next_channel_strip_id, name, channel_type),
                        },
                    )
                } else {
                    (self, refusal(request, AssemblyError::IdentifiersExhausted))
                }
            },
            FactoryRequestView::CreateOutputStage { name, response_sender } => {
                if self.next_channel_strip_id < u32::MAX - 1 {
                    self.allocated().moved(
                        PhaseView::LeftLeg {
                            name,
                            response_sender,
                            job: StripJobView::start(
                                self.next_channel_strip_id,
                                left_stage_name(),
                                ChannelStripKind::Basic,
                            ),
                        },
                    )
                } else {
                    (self, refusal(request, AssemblyError::IdentifiersExhausted))
                }
            },
        }
    }

    /// The actor gives up the output stage in flight.
    pub open spec fn stage_failed(self, response_sender: OutputStageReplySlot, error: AssemblyError)
        -> (FactoryView, FactoryActionView) {
        (self.idle(), FactoryActionView::ReplyOutputStage { response_sender, response: Err(error) })
    }

    /// The turn of an actor that serves a channel strip request.
    pub open spec fn strip_turn(
        self,
        response_sender: ChannelStripReplySlot,
        job: StripJobView,
        outcome: BackendOutcomeView,
    ) -> (FactoryView, FactoryActionView) {
        match job.advanced(self.config, outcome) {
            JobProgressView::Pending(next, call) => (
                FactoryView { phase: PhaseView::ChannelStrip { response_sender, job: next }, ..self },
                call,
            ),
            JobProgressView::Registered { id, name, plugins } => (
                self.idle(),
                FactoryActionView::ReplyChannelStrip {
                    response_sender,
                    response: Ok(strip_response(id, name, plugins)),
                },
            ),
            JobProgressView::Failed(error) => (
                self.idle(),
                FactoryActionView::ReplyChannelStrip { response_sender, response: Err(error) },
            ),
        }
    }

    /// The turn of an actor that makes the left leg of an output stage.
    /// Once the leg is registered, the right leg is begun under the next
    /// identifier.
    pub open spec fn left_leg_turn(
        self,
        name: Seq<char>,
        response_sender: OutputStageReplySlot,
        job: StripJobView,
        outcome: BackendOutcomeView,
    ) -> (FactoryView, FactoryActionView) {
        match job.advanced(self.config, outcome) {
            JobProgressView::Pending(next, call) => (
                FactoryView {
                    phase: PhaseView::LeftLeg { name, response_sender, job: next },
                    ..self
                },
                call,
            ),
            JobProgressView::Registered { id, plugins, .. } => self.allocated().moved(
                PhaseView::RightLeg {
                    name,
                    response_sender,
                    left_id: id,
                    left_gain: plugins.gain,
                    job: StripJobView::start(
                        self.next_channel_strip_id,
                        right_stage_name(),
                        ChannelStripKind::Basic,
                    ),
                },
            ),
            JobProgressView::Failed(error) => self.stage_failed(response_sender, error),
        }
    }

    /// The turn of an actor that makes the right leg of an output stage.
    /// Once the leg is registered, the stage's cross-fader is asked for.
    pub open spec fn right_leg_turn(
        self,
        name: Seq<char>,
        response_sender: OutputStageReplySlot,
        left_id: u32,
        left_gain: PluginInstanceView,
        job: StripJobView,
        outcome: BackendOutcomeView,
    ) -> (FactoryView, FactoryActionView) {
        match job.advanced(self.config, outcome) {
            JobProgressView::Pending(next, call) => (
                FactoryView {
                    phase: PhaseView::RightLeg {
                        name,
                        response_sender,
                        left_id,
                        left_gain,
                        job: next,
                    },
                    ..self
                },
                call,
            ),
            JobProgressView::Registered { id, plugins, .. } => self.moved(
                PhaseView::CrossFader {
                    name,
                    response_sender,
                    left_id,
                    left_gain,
                    right_id: id,
                    right_gain: plugins.gain,
                },
            ),
            JobProgressView::Failed(error) => self.stage_failed(response_sender, error),
        }
    }

    /// The turn of an actor that waits for the cross-fader of an output
    /// stage. Once it is there, the first link of the stage is asked for.
    pub open spec fn cross_fader_turn(
        self,
        name: Seq<char>,
        response_sender: OutputStageReplySlot,
        left_id: u32,
        left_gain: PluginInstanceView,
        right_id: u32,
        right_gain: PluginInstanceView,
        outcome: BackendOutcomeView,
    ) -> (FactoryView, FactoryActionView) {
        match outcome {
            BackendOutcomeView::PluginInstanceCreated(Some(plugin)) => self.moved(
                PhaseView::StageWiring {
                    name,
                    response_sender,
                    left_id,
                    left_gain,
                    right_id,
                    right_gain,
                    cross_fader: PluginInstanceView {
                        id: plugin.id,
                        name: plugin.name,
                        uri: self.config.plugin_uri(PluginRole::CrossFader),
                    },
                    issued: 0,
                },
            ),
            _ => self.stage_failed(
                response_sender,
                outcome.failure_at(AssemblyStep::Instantiate { role: PluginRole::CrossFader }),
            ),
        }
    }

    /// The turn of an actor that waits for a link of an output stage.
    /// After the fourth link the stage goes to the registry, not before.
    pub open spec fn stage_wiring_turn(
        self,
        name: Seq<char>,
        response_sender: OutputStageReplySlot,
        left_id: u32,
        left_gain: PluginInstanceView,
        right_id: u32,
        right_gain: PluginInstanceView,
        cross_fader: PluginInstanceView,
        issued: int,
        outcome: BackendOutcomeView,
    ) -> (FactoryView, FactoryActionView) {
        match outcome {
            BackendOutcomeView::LinkCreated => if issued + 1 < 4 {
                self.moved(
                    PhaseView::StageWiring {
                        name,
                        response_sender,
                        left_id,
                        left_gain,
                        right_id,
                        right_gain,
                        cross_fader,
                        issued: issued + 1,
                    },
                )
            } else {
                self.moved(
                    PhaseView::StageRegistering {
                        name,
                        response_sender,
                        left_id,
                        right_id,
                        cross_fader_plugin_id: cross_fader.id,
                    },
                )
            },
            _ => self.stage_failed(response_sender, outcome.failure_at(leg_wire_step())),
        }
    }

    /// The turn of an actor that waits for the registry to store an output
    /// stage. The stage's identifier is the one that the registry gives.
    pub open spec fn stage_registering_turn(
        self,
        name: Seq<char>,
        response_sender: OutputStageReplySlot,
        left_id: u32,
        right_id: u32,
        cross_fader_plugin_id: u32,
        outcome: BackendOutcomeView,
    ) -> (FactoryView, FactoryActionView) {
        match outcome {
            BackendOutcomeView::OutputStageRegistered { id } => (
                self.idle(),
                FactoryActionView::ReplyOutputStage {
                    response_sender,
                    response: Ok(
                        CreateOutputStageResponseView {
                            id,
                            name,
                            left_channel_strip_id: left_id,
                            right_channel_strip_id: right_id,
                            cross_fader_plugin_id,
                        },
                    ),
                },
            ),
            _ => self.stage_failed(
                response_sender,
                outcome.failure_at(AssemblyStep::RegisterOutputStage),
            ),
        }
    }

    /// What the actor does with the outcome of a backend call. At rest it
    /// waits for none, and goes on waiting for a request.
    #[verifier::opaque]
    pub open spec fn proceed(self, outcome: BackendOutcomeView) -> (FactoryView, FactoryActionView) {
        match self.phase {
            PhaseView::Idle => (self, FactoryActionView::AwaitRequest),
            PhaseView::ChannelStrip { response_sender, job } => self.strip_turn(
                response_sender,
                job,
                outcome,
            ),
            PhaseView::LeftLeg { name, response_sender, job } => self.left_leg_turn(
                name,
                response_sender,
                job,
                outcome,
            ),
            PhaseView::RightLeg { name, response_sender, left_id, left_gain, job } => {
                self.right_leg_turn(name, response_sender, left_id, left_gain, job, outcome)
            },
            PhaseView::CrossFader {
                name,
                response_sender,
                left_id,
                left_gain,
                right_id,
                right_gain,
            } => self.cross_fader_turn(
                name,
                response_sender,
                left_id,
                left_gain,
                right_id,
                right_gain,
                outcome,
            ),
            PhaseView::StageWiring {
                name,
                response_sender,
                left_id,
                left_gain,
                right_id,
                right_gain,
                cross_fader,
                issued,
            } => self.stage_wiring_turn(
                name,
                response_sender,
                left_id,
                left_gain,
                right_id,
                right_gain,
                cross_fader,
                issued,
                outcome,
            ),
            PhaseView::StageRegistering {
                name,
                response_sender,
                left_id,
                right_id,
                cross_fader_plugin_id,
            } => self.stage_registering_turn(
                name,
                response_sender,
                left_id,
                right_id,
                cross_fader_plugin_id,
                outcome,
            ),
        }
    }

    /// One turn of the actor. A request is taken up only at rest: one
    /// that comes while another is in flight is refused as busy, and
    /// the assembly in flight stays as it is.
    pub open spec fn step(self, event: FactoryEventView) -> (FactoryView, FactoryActionView) {
        match event {
            FactoryEventView::Request(request) => if self.phase is Idle {
                self.accept(request)
            } else {
                (self, refusal(request, AssemblyError::Busy))
            },
            FactoryEventView::Outcome(outcome) => self.proceed(outcome),
        }
    }

    /// The turns of the actor over a sequence of events: where it ends,
    /// and what it asked for after each event.
    pub open spec fn run(self, events: Seq<FactoryEventView>) -> (FactoryView, Seq<
        FactoryActionView,
    >)
        decreases events.len(),
    {
        if events.len() == 0 {
            (self, Seq::empty())
        } else {
            let (before, actions) = self.run(events.drop_last());
            let (after, action) = before.step(events.last());
            (after, actions.push(action))
        }
    }
}

} // verus!
