//! The assembly actor: a single-writer state machine that owns the channel
//! strip identifiers, takes one request at a time and drives its assembly
//! to the answer.

pub mod channel_strip_factory;
pub mod machine;
pub mod protocol;
pub mod utils;

pub use crate::factory::protocol::{
    CreateChannelStripResponse, CreateOutputStageResponse, FactoryRequest,
};

use crate::error::{AssemblyError, AssemblyStep};
use crate::factory::channel_strip_factory::{
    create_channel_strip, ChannelStripAssembly, StripProgress,
};
use crate::factory::machine::{
    lemma_job_keeps_identity, refusal, stage_links, strip_record, strip_response, FactoryView,
    JobProgressView, PhaseView, StripJobStageView, StripJobView,
};
use crate::factory::protocol::{
    BackendOutcome, ChannelStripReplySlot, FactoryAction, FactoryActionView, FactoryEvent,
    OutputStageReplySlot, PmxChannelStrip, RegisterOutputStageRequest,
};
use crate::factory::utils::{
    connect_cross_fader_left, connect_cross_fader_right, create_plugin, CreateLinkByNameRequest,
};
use crate::model::{
    ChannelStripKind, ChannelStripPlugins, FactoryConfig, PluginInstance, PluginRole,
};
use vstd::prelude::*;

verus! {

/// How far a strip has come on its way into the registry.
#[derive(Debug)]
enum StripJobStage {
    Building(ChannelStripAssembly),
    Registering(ChannelStripPlugins),
}

/// A strip on its way into the registry: it has its identifier, and is
/// being assembled or registered.
#[derive(Debug)]
struct StripJob {
    id: u32,
    name: String,
    stage: StripJobStage,
}

/// What a strip job has come to after an outcome.
enum JobProgress {
    Pending(StripJob, FactoryAction),
    Registered { id: u32, name: String, plugins: ChannelStripPlugins },
    Failed(AssemblyError),
}

impl View for StripJob {
    type V = StripJobView;

    closed spec fn view(&self) -> StripJobView {
        StripJobView {
            id: self.id,
            name: self.name@,
            stage: match self.stage {
                StripJobStage::Building(assembly) => StripJobStageView::Building(assembly@),
                StripJobStage::Registering(plugins) => StripJobStageView::Registering(plugins@),
            },
        }
    }
}

impl View for JobProgress {
    type V = JobProgressView;

    closed spec fn view(&self) -> JobProgressView {
        match *self {
            JobProgress::Pending(job, call) => JobProgressView::Pending(job@, call@),
            JobProgress::Registered { id, name, plugins } => JobProgressView::Registered {
                id,
                name: name@,
                plugins: plugins@,
            },
            JobProgress::Failed(error) => JobProgressView::Failed(error),
        }
    }
}

impl JobProgress {
    closed spec fn wf(&self) -> bool {
        match *self {
            JobProgress::Pending(job, _) => job.wf(),
            _ => true,
        }
    }
}

impl StripJob {
    closed spec fn wf(&self) -> bool {
        match self.stage {
            StripJobStage::Building(assembly) => assembly.wf(),
            StripJobStage::Registering(_) => true,
        }
    }

    proof fn lemma_wf(&self)
        requires
            self.wf(),
        ensures
            self@.wf(),
    {
        match self.stage {
            StripJobStage::Building(assembly) => assembly.lemma_wf(),
            StripJobStage::Registering(_) => {},
        }
    }

    /// Takes the outcome of the awaited call.
    fn resume(self, outcome: BackendOutcome, config: &FactoryConfig) -> (progress: JobProgress)
        requires
            self.wf(),
        ensures
            progress@ == self@.advanced(config@, outcome@),
            progress.wf(),
    {
        let StripJob { id, name, stage } = self;
        match stage {
            StripJobStage::Building(assembly) => match assembly.resume(outcome, config) {
                StripProgress::Pending(next, call) => JobProgress::Pending(
                    StripJob { id, name, stage: StripJobStage::Building(next) },
                    call,
                ),
                StripProgress::Complete(plugins) => {
                    let call = FactoryAction::RegisterChannelStrip(
                        Factory::register_channel_strip(id, &name, &plugins),
                    );
                    JobProgress::Pending(
                        StripJob { id, name, stage: StripJobStage::Registering(plugins) },
                        call,
                    )
                },
                StripProgress::Failed(error) => JobProgress::Failed(error),
            },
            StripJobStage::Registering(plugins) => match outcome {
                BackendOutcome::ChannelStripRegistered => JobProgress::Registered {
                    id,
                    name,
                    plugins,
                },
                other => JobProgress::Failed(other.failure_at(AssemblyStep::RegisterChannelStrip)),
            },
        }
    }
}

/// What the actor is doing.
#[derive(Debug)]
enum Phase {
    Idle,
    ChannelStrip { response_sender: ChannelStripReplySlot, job: StripJob },
    LeftLeg { name: String, response_sender: OutputStageReplySlot, job: StripJob },
    RightLeg {
        name: String,
        response_sender: OutputStageReplySlot,
        left_id: u32,
        left_gain: PluginInstance,
        job: StripJob,
    },
    CrossFader {
        name: String,
        response_sender: OutputStageReplySlot,
        left_id: u32,
        left_gain: PluginInstance,
        right_id: u32,
        right_gain: PluginInstance,
    },
    StageWiring {
        name: String,
        response_sender: OutputStageReplySlot,
        left_id: u32,
        left_gain: PluginInstance,
        right_id: u32,
        right_gain: PluginInstance,
        cross_fader: PluginInstance,
        links: Vec<CreateLinkByNameRequest>,
        issued: usize,
    },
    StageRegistering {
        name: String,
        response_sender: OutputStageReplySlot,
        left_id: u32,
        right_id: u32,
        cross_fader_plugin_id: u32,
    },
}

impl View for Phase {
    type V = PhaseView;

    closed spec fn view(&self) -> PhaseView {
        match *self {
            Phase::Idle => PhaseView::Idle,
            Phase::ChannelStrip { response_sender, job } => PhaseView::ChannelStrip {
                response_sender,
                job: job@,
            },
            Phase::LeftLeg { name, response_sender, job } => PhaseView::LeftLeg {
                name: name@,
                response_sender,
                job: job@,
            },
            Phase::RightLeg { name, response_sender, left_id, left_gain, job } => {
                PhaseView::RightLeg {
                    name: name@,
                    response_sender,
                    left_id,
                    left_gain: left_gain@,
                    job: job@,
                }
            },
            Phase::CrossFader {
                name,
                response_sender,
                left_id,
                left_gain,
                right_id,
                right_gain,
            } => PhaseView::CrossFader {
                name: name@,
                response_sender,
                left_id,
                left_gain: left_gain@,
                right_id,
                right_gain: right_gain@,
            },
            Phase::StageWiring {
                name,
                response_sender,
                left_id,
                left_gain,
                right_id,
                right_gain,
                cross_fader,
                issued,
                ..
            } => PhaseView::StageWiring {
                name: name@,
                response_sender,
                left_id,
                left_gain: left_gain@,
                right_id,
                right_gain: right_gain@,
                cross_fader: cross_fader@,
                issued: issued as int,
            },
            Phase::StageRegistering {
                name,
                response_sender,
                left_id,
                right_id,
                cross_fader_plugin_id,
            } => PhaseView::StageRegistering {
                name: name@,
                response_sender,
                left_id,
                right_id,
                cross_fader_plugin_id,
            },
        }
    }
}

impl Phase {
    /// The jobs and links that the phase holds are sound.
    closed spec fn wf(&self) -> bool {
        match *self {
            Phase::ChannelStrip { job, .. } => job.wf(),
            Phase::LeftLeg { job, .. } => job.wf(),
            Phase::RightLeg { job, .. } => job.wf(),
            Phase::StageWiring { left_gain, right_gain, cross_fader, links, .. } => {
                links.deep_view() == stage_links(left_gain@, right_gain@, cross_fader@)
            },
            _ => true,
        }
    }
}

/// The assembly actor. It owns the channel strip identifiers and holds
/// the one request that is in flight.
#[derive(Debug)]
pub struct Factory {
    config: FactoryConfig,
    next_channel_strip_id: u32,
    phase: Phase,
}

impl View for Factory {
    type V = FactoryView;

    closed spec fn view(&self) -> FactoryView {
        FactoryView {
            config: self.config@,
            next_channel_strip_id: self.next_channel_strip_id,
            phase: self.phase@,
        }
    }
}

/// The value of an actor with the given parts.
spec fn assembled(config: &FactoryConfig, next_channel_strip_id: u32, phase: &Phase)
    -> FactoryView {
    FactoryView { config: config@, next_channel_strip_id, phase: phase@ }
}

/// The action that answers a request with a failure.
fn refuse(request: FactoryRequest, error: AssemblyError) -> (action: FactoryAction)
    ensures
        action@ == refusal(request@, error),
{
    match request {
        FactoryRequest::CreateChannelStrip { response_sender, .. } => {
            FactoryAction::ReplyChannelStrip { response_sender, response: Err(error) }
        },
        FactoryRequest::CreateOutputStage { response_sender, .. } => {
            FactoryAction::ReplyOutputStage { response_sender, response: Err(error) }
        },
    }
}

impl Factory {
    /// What holds of every actor: its state is sound, see
    /// [`FactoryView::wf`], and the links that it holds are those of the
    /// stage in flight.
    #[verifier::type_invariant]
    pub closed spec fn wf(&self) -> bool {
        &&& self@.wf()
        &&& self.phase.wf()
    }

    /// A sound actor has a sound value.
    pub proof fn lemma_wf(&self)
        requires
            self.wf(),
        ensures
            self@.wf(),
    {
    }

    /// An actor at rest that has handed out no identifier yet.
    pub fn new(config: FactoryConfig) -> (factory: Factory)
        ensures
            factory@ == FactoryView::start(config@),
            factory.wf(),
    {
        Factory { config, next_channel_strip_id: 0, phase: Phase::Idle }
    }

    /// An actor at rest that takes up the identifiers where an earlier
    /// one left them: the next channel strip gets `next_channel_strip_id`.
    pub fn resuming(config: FactoryConfig, next_channel_strip_id: u32) -> (factory: Factory)
        ensures
            factory@ == (FactoryView {
                next_channel_strip_id,
                ..FactoryView::start(config@)
            }),
            factory.wf(),
    {
        Factory { config, next_channel_strip_id, phase: Phase::Idle }
    }

    /// The identifier that the next channel strip will get.
    pub fn next_channel_strip_id(&self) -> (id: u32)
        ensures
            id == self@.next_channel_strip_id,
    {
        self.next_channel_strip_id
    }

    /// Whether no request is in flight.
    pub fn is_idle(&self) -> (idle: bool)
        ensures
            idle == (self@.phase is Idle),
    {
        match self.phase {
            Phase::Idle => true,
            _ => false,
        }
    }

    /// The record under which a strip goes to the registry.
    pub fn register_channel_strip(id: u32, name: &String, plugins: &ChannelStripPlugins) -> (record:
        PmxChannelStrip)
        ensures
            record@ == strip_record(id, name@, plugins@),
    {
        let (channel_type, cross_fader_plugin_id) = match &plugins.cross_fader {
            Some(fader) => (ChannelStripKind::CrossFaded, Some(fader.id)),
            None => (ChannelStripKind::Basic, None),
        };
        PmxChannelStrip {
            id,
            name: name.clone(),
            channel_type,
            cross_fader_plugin_id,
            saturator_plugin_id: plugins.saturator.id,
            compressor_plugin_id: plugins.compressor.id,
            equalizer_plugin_id: plugins.equalizer.id,
            gain_plugin_id: plugins.gain.id,
        }
    }

    /// Takes the next identifier for a new strip and begins the strip's
    /// assembly. Gives the counter after it, the strip's job and the
    /// job's first call.
    fn create_and_register_channel_strip(
        config: &FactoryConfig,
        next_channel_strip_id: u32,
        name: String,
        channel_type: ChannelStripKind,
    ) -> (begun: (u32, StripJob, FactoryAction))
        requires
            next_channel_strip_id < u32::MAX,
        ensures
            begun.0 == next_channel_strip_id + 1,
            begun.1@ == StripJobView::start(next_channel_strip_id, name@, channel_type),
            begun.1.wf(),
            begun.2@ == begun.1@.pending_call(config@),
    {
        let (assembly, call) = create_channel_strip(channel_type, config);
        let job = StripJob {
            id: next_channel_strip_id,
            name,
            stage: StripJobStage::Building(assembly),
        };
        (next_channel_strip_id + 1, job, call)
    }
}

/// The actor gives up the output stage in flight.
fn fail_stage(next_channel_strip_id: u32, response_sender: OutputStageReplySlot, error: AssemblyError)
    -> (turn: (u32, Phase, FactoryAction))
    ensures
        turn.0 == next_channel_strip_id,
        turn.1@ == PhaseView::Idle,
        turn.1.wf(),
        turn.2@ == (FactoryActionView::ReplyOutputStage { response_sender, response: Err(error) }),
{
    (
        next_channel_strip_id,
        Phase::Idle,
        FactoryAction::ReplyOutputStage { response_sender, response: Err(error) },
    )
}

/// What the actor at rest does with a request.
fn accept(config: &FactoryConfig, next_channel_strip_id: u32, request: FactoryRequest) -> (turn: (
    u32,
    Phase,
    FactoryAction,
))
    ensures
        (assembled(config, turn.0, &turn.1), turn.2@) == assembled(
            config,
            next_channel_strip_id,
            &Phase::Idle,
        ).accept(request@),
        turn.1.wf(),
        assembled(config, turn.0, &turn.1).wf(),
{
    match request {
        FactoryRequest::CreateChannelStrip { name, response_sender, channel_type } => {
            if next_channel_strip_id < u32::MAX {
                let (counter, job, call) = Factory::create_and_register_channel_strip(
                    config,
                    next_channel_strip_id,
                    name,
                    channel_type,
                );
                (counter, Phase::ChannelStrip { response_sender, job }, call)
            } else {
                let action = FactoryAction::ReplyChannelStrip {
                    response_sender,
                    response: Err(AssemblyError::IdentifiersExhausted),
                };
                (next_channel_strip_id, Phase::Idle, action)
            }
        },
        FactoryRequest::CreateOutputStage { name, response_sender } => {
            if next_channel_strip_id < u32::MAX - 1 {
                let (counter, job, call) = Factory::create_and_register_channel_strip(
                    config,
                    next_channel_strip_id,
                    String::from_str("Left Stage"),
                    ChannelStripKind::Basic,
                );
                (counter, Phase::LeftLeg { name, response_sender, job }, call)
            } else {
                fail_stage(next_channel_strip_id, response_sender, AssemblyError::IdentifiersExhausted)
            }
        },
    }
}

/// The answer to a channel strip request whose strip is registered.
fn strip_record_of(id: u32, name: String, plugins: ChannelStripPlugins) -> (record:
    CreateChannelStripResponse)
    ensures
        record@ == strip_response(id, name@, plugins@),
{
    let channel_type = match &plugins.cross_fader {
        Some(_) => ChannelStripKind::CrossFaded,
        None => ChannelStripKind::Basic,
    };
    let ChannelStripPlugins { cross_fader, saturator, compressor, equalizer, gain } = plugins;
    CreateChannelStripResponse {
        id,
        name,
        cross_fader,
        saturator,
        compressor,
        equalizer,
        gain,
        channel_type,
    }
}

/// The turn of an actor that serves a channel strip request.
fn strip_turn(
    config: &FactoryConfig,
    next_channel_strip_id: u32,
    response_sender: ChannelStripReplySlot,
    job: StripJob,
    outcome: BackendOutcome,
) -> (turn: (u32, Phase, FactoryAction))
    requires
        job.wf(),
        job@.id < next_channel_strip_id,
    ensures
        (assembled(config, turn.0, &turn.1), turn.2@) == assembled(
            config,
            next_channel_strip_id,
            &Phase::Idle,
        ).strip_turn(response_sender, job@, outcome@),
        turn.1.wf(),
        assembled(config, turn.0, &turn.1).wf(),
{
    proof {
        job.lemma_wf();
        lemma_job_keeps_identity(job@, config@, outcome@);
    }
    match job.resume(outcome, config) {
        JobProgress::Pending(next, call) => {
            proof {
                next.lemma_wf();
            }
            (next_channel_strip_id, Phase::ChannelStrip { response_sender, job: next }, call)
        },
        JobProgress::Registered { id, name, plugins } => {
            let action = FactoryAction::ReplyChannelStrip {
                response_sender,
                response: Ok(strip_record_of(id, name, plugins)),
            };
            (next_channel_strip_id, Phase::Idle, action)
        },
        JobProgress::Failed(error) => {
            let action = FactoryAction::ReplyChannelStrip { response_sender, response: Err(error) };
            (next_channel_strip_id, Phase::Idle, action)
        },
    }
}

/// The turn of an actor that makes the left leg of an output stage.
fn left_leg_turn(
    config: &FactoryConfig,
    next_channel_strip_id: u32,
    name: String,
    response_sender: OutputStageReplySlot,
    job: StripJob,
    outcome: BackendOutcome,
) -> (turn: (u32, Phase, FactoryAction))
    requires
        job.wf(),
        job@.kind() == ChannelStripKind::Basic,
        job@.id < next_channel_strip_id < u32::MAX,
    ensures
        (assembled(config, turn.0, &turn.1), turn.2@) == assembled(
            config,
            next_channel_strip_id,
            &Phase::Idle,
        ).left_leg_turn(name@, response_sender, job@, outcome@),
        turn.1.wf(),
        assembled(config, turn.0, &turn.1).wf(),
{
    proof {
        job.lemma_wf();
        lemma_job_keeps_identity(job@, config@, outcome@);
    }
    match job.resume(outcome, config) {
        JobProgress::Pending(next, call) => {
            proof {
                next.lemma_wf();
            }
            (next_channel_strip_id, Phase::LeftLeg { name, response_sender, job: next }, call)
        },
        JobProgress::Registered { id, plugins, .. } => {
            let (counter, right, call) = Factory::create_and_register_channel_strip(
                config,
                next_channel_strip_id,
                String::from_str("Right Stage"),
                ChannelStripKind::Basic,
            );
            proof {
                right.lemma_wf();
            }
            let next = Phase::RightLeg {
                name,
                response_sender,
                left_id: id,
                left_gain: plugins.gain,
                job: right,
            };
            (counter, next, call)
        },
        JobProgress::Failed(error) => fail_stage(next_channel_strip_id, response_sender, error),
    }
}

/// The turn of an actor that makes the right leg of an output stage.
fn right_leg_turn(
    config: &FactoryConfig,
    next_channel_strip_id: u32,
    name: String,
    response_sender: OutputStageReplySlot,
    left_id: u32,
    left_gain: PluginInstance,
    job: StripJob,
    outcome: BackendOutcome,
) -> (turn: (u32, Phase, FactoryAction))
    requires
        job.wf(),
        job@.kind() == ChannelStripKind::Basic,
        left_id < job@.id < next_channel_strip_id,
    ensures
        (assembled(config, turn.0, &turn.1), turn.2@) == assembled(
            config,
            next_channel_strip_id,
            &Phase::Idle,
        ).right_leg_turn(name@, response_sender, left_id, left_gain@, job@, outcome@),
        turn.1.wf(),
        assembled(config, turn.0, &turn.1).wf(),
{
    proof {
        job.lemma_wf();
        lemma_job_keeps_identity(job@, config@, outcome@);
    }
    match job.resume(outcome, config) {
        JobProgress::Pending(next, call) => {
            proof {
                next.lemma_wf();
            }
            let next = Phase::RightLeg { name, response_sender, left_id, left_gain, job: next };
            (next_channel_strip_id, next, call)
        },
        JobProgress::Registered { id, plugins, .. } => {
            let call = FactoryAction::CreatePluginInstance(
                create_plugin(config.plugin_uri(PluginRole::CrossFader)),
            );
            let next = Phase::CrossFader {
                name,
                response_sender,
                left_id,
                left_gain,
                right_id: id,
                right_gain: plugins.gain,
            };
            (next_channel_strip_id, next, call)
        },
        JobProgress::Failed(error) => fail_stage(next_channel_strip_id, response_sender, error),
    }
}

/// The turn of an actor that waits for the cross-fader of an output stage.
fn cross_fader_turn(
    config: &FactoryConfig,
    next_channel_strip_id: u32,
    name: String,
    response_sender: OutputStageReplySlot,
    left_id: u32,
    left_gain: PluginInstance,
    right_id: u32,
    right_gain: PluginInstance,
    outcome: BackendOutcome,
) -> (turn: (u32, Phase, FactoryAction))
    requires
        left_id < right_id < next_channel_strip_id,
    ensures
        (assembled(config, turn.0, &turn.1), turn.2@) == assembled(
            config,
            next_channel_strip_id,
            &Phase::Idle,
        ).cross_fader_turn(
            name@,
            response_sender,
            left_id,
            left_gain@,
            right_id,
            right_gain@,
            outcome@,
        ),
        turn.1.wf(),
        assembled(config, turn.0, &turn.1).wf(),
{
    match outcome {
        BackendOutcome::PluginInstanceCreated(Some(plugin)) => {
            let cross_fader = PluginInstance {
                id: plugin.id,
                name: plugin.name,
                uri: config.plugin_uri(PluginRole::CrossFader),
            };
            let mut links = connect_cross_fader_left(&left_gain, &cross_fader);
            let mut second = connect_cross_fader_right(&right_gain, &cross_fader);
            links.append(&mut second);
            assert(links.deep_view() =~= stage_links(left_gain@, right_gain@, cross_fader@));
            assert(links.deep_view()[0] == links[0]@);
            let call = FactoryAction::CreateLinkByName(links[0].duplicate());
            let next = Phase::StageWiring {
                name,
                response_sender,
                left_id,
                left_gain,
                right_id,
                right_gain,
                cross_fader,
                links,
                issued: 0,
            };
            (next_channel_strip_id, next, call)
        },
        other => fail_stage(
            next_channel_strip_id,
            response_sender,
            other.failure_at(AssemblyStep::Instantiate { role: PluginRole::CrossFader }),
        ),
    }
}

/// The turn of an actor that waits for a link of an output stage.
fn stage_wiring_turn(
    config: &FactoryConfig,
    next_channel_strip_id: u32,
    name: String,
    response_sender: OutputStageReplySlot,
    left_id: u32,
    left_gain: PluginInstance,
    right_id: u32,
    right_gain: PluginInstance,
    cross_fader: PluginInstance,
    links: Vec<CreateLinkByNameRequest>,
    issued: usize,
    outcome: BackendOutcome,
) -> (turn: (u32, Phase, FactoryAction))
    requires
        left_id < right_id < next_channel_strip_id,
        issued < 4,
        links.deep_view() == stage_links(left_gain@, right_gain@, cross_fader@),
    ensures
        (assembled(config, turn.0, &turn.1), turn.2@) == assembled(
            config,
            next_channel_strip_id,
            &Phase::Idle,
        ).stage_wiring_turn(
            name@,
            response_sender,
            left_id,
            left_gain@,
            right_id,
            right_gain@,
            cross_fader@,
            issued as int,
            outcome@,
        ),
        turn.1.wf(),
        assembled(config, turn.0, &turn.1).wf(),
{
    match outcome {
        BackendOutcome::LinkCreated => {
            assert(links.deep_view().len() == links.len());
            if issued + 1 < links.len() {
                assert(links.deep_view()[issued + 1] == links[issued + 1]@);
                let call = FactoryAction::CreateLinkByName(links[issued + 1].duplicate());
                let next = Phase::StageWiring {
                    name,
                    response_sender,
                    left_id,
                    left_gain,
                    right_id,
                    right_gain,
                    cross_fader,
                    links,
                    issued: issued + 1,
                };
                (next_channel_strip_id, next, call)
            } else {
                let call = FactoryAction::RegisterOutputStage(
                    RegisterOutputStageRequest {
                        name: name.clone(),
                        left_channel_strip_id: left_id,
                        right_channel_strip_id: right_id,
                        cross_fader_plugin_id: cross_fader.id,
                    },
                );
                let next = Phase::StageRegistering {
                    name,
                    response_sender,
                    left_id,
                    right_id,
                    cross_fader_plugin_id: cross_fader.id,
                };
                (next_channel_strip_id, next, call)
            }
        },
        other => fail_stage(
            next_channel_strip_id,
            response_sender,
            other.failure_at(
                AssemblyStep::Wire { from: PluginRole::Gain, to: PluginRole::CrossFader },
            ),
        ),
    }
}

/// The turn of an actor that waits for the registry to store an output
/// stage.
fn stage_registering_turn(
    config: &FactoryConfig,
    next_channel_strip_id: u32,
    name: String,
    response_sender: OutputStageReplySlot,
    left_id: u32,
    right_id: u32,
    cross_fader_plugin_id: u32,
    outcome: BackendOutcome,
) -> (turn: (u32, Phase, FactoryAction))
    ensures
        (assembled(config, turn.0, &turn.1), turn.2@) == assembled(
            config,
            next_channel_strip_id,
            &Phase::Idle,
        ).stage_registering_turn(
            name@,
            response_sender,
            left_id,
            right_id,
            cross_fader_plugin_id,
            outcome@,
        ),
        turn.1.wf(),
        assembled(config, turn.0, &turn.1).wf(),
{
    match outcome {
        BackendOutcome::OutputStageRegistered { id } => {
            let record = CreateOutputStageResponse {
                id,
                name,
                left_channel_strip_id: left_id,
                right_channel_strip_id: right_id,
                cross_fader_plugin_id,
            };
            let action = FactoryAction::ReplyOutputStage { response_sender, response: Ok(record) };
            (next_channel_strip_id, Phase::Idle, action)
        },
        other => fail_stage(
            next_channel_strip_id,
            response_sender,
            other.failure_at(AssemblyStep::RegisterOutputStage),
        ),
    }
}

/// What the actor does with the outcome of a backend call.
fn proceed(
    config: &FactoryConfig,
    next_channel_strip_id: u32,
    phase: Phase,
    outcome: BackendOutcome,
) -> (turn: (u32, Phase, FactoryAction))
    requires
        phase.wf(),
        assembled(config, next_channel_strip_id, &phase).wf(),
    ensures
        (assembled(config, turn.0, &turn.1), turn.2@) == assembled(
            config,
            next_channel_strip_id,
            &phase,
        ).proceed(outcome@),
        turn.1.wf(),
        assembled(config, turn.0, &turn.1).wf(),
{
    proof {
        reveal(FactoryView::proceed);
    }
    match phase {
        Phase::Idle => (next_channel_strip_id, Phase::Idle, FactoryAction::AwaitRequest),
        Phase::ChannelStrip { response_sender, job } => strip_turn(
            config,
            next_channel_strip_id,
            response_sender,
            job,
            outcome,
        ),
        Phase::LeftLeg { name, response_sender, job } => left_leg_turn(
            config,
            next_channel_strip_id,
            name,
            response_sender,
            job,
            outcome,
        ),
        Phase::RightLeg { name, response_sender, left_id, left_gain, job } => right_leg_turn(
            config,
            next_channel_strip_id,
            name,
            response_sender,
            left_id,
            left_gain,
            job,
            outcome,
        ),
        Phase::CrossFader { name, response_sender, left_id, left_gain, right_id, right_gain } => {
            cross_fader_turn(
                config,
                next_channel_strip_id,
                name,
                response_sender,
                left_id,
                left_gain,
                right_id,
                right_gain,
                outcome,
            )
        },
        Phase::StageWiring {
            name,
            response_sender,
            left_id,
            left_gain,
            right_id,
            right_gain,
            cross_fader,
            links,
            issued,
        } => stage_wiring_turn(
            config,
            next_channel_strip_id,
            name,
            response_sender,
            left_id,
            left_gain,
            right_id,
            right_gain,
            cross_fader,
            links,
            issued,
            outcome,
        ),
        Phase::StageRegistering {
            name,
            response_sender,
            left_id,
            right_id,
            cross_fader_plugin_id,
        } => stage_registering_turn(
            config,
            next_channel_strip_id,
            name,
            response_sender,
            left_id,
            right_id,
            cross_fader_plugin_id,
            outcome,
        ),
    }
}


impl Factory {
    /// One turn of the actor: takes what happened and says what is to be
    /// done next. What the actor does with an outcome, [`FactoryView::proceed`],
    /// is opaque until it is revealed; the theorems of `traces::turns` say
    /// it case by case.
    pub fn step(&mut self, event: FactoryEvent) -> (action: FactoryAction)
        ensures
            final(self).wf(),
            (final(self)@, action@) == old(self)@.step(event@),
    {
        proof {
            use_type_invariant(&*self);
        }
        let mut phase = Phase::Idle;
        core::mem::swap(&mut self.phase, &mut phase);
        let (counter, next, action) = match event {
            FactoryEvent::Request(request) => match phase {
                Phase::Idle => accept(&self.config, self.next_channel_strip_id, request),
                busy => (self.next_channel_strip_id, busy, refuse(request, AssemblyError::Busy)),
            },
            FactoryEvent::Outcome(outcome) => proceed(
                &self.config,
                self.next_channel_strip_id,
                phase,
                outcome,
            ),
        };
        self.next_channel_strip_id = counter;
        self.phase = next;
        action
    }

    /// The turns of the actor over a sequence of events, in order. Gives
    /// what the actor asked for after each event.
    pub fn run(&mut self, events: Vec<FactoryEvent>) -> (actions: Vec<FactoryAction>)
        ensures
            final(self).wf(),
            actions.len() == events.len(),
            (final(self)@, actions.deep_view()) == old(self)@.run(events.deep_view()),
    {
        let mut actions: Vec<FactoryAction> = Vec::new();
        let ghost all = events.deep_view();
        let ghost items = events@;
        let ghost start = self@;
        for event in it: events
            invariant
                it.seq() == items,
                all.len() == items.len(),
                forall|i: int| 0 <= i < items.len() ==> all[i] == items[i]@,
                actions.len() == it.index(),
                (self@, actions.deep_view()) == start.run(all.take(it.index() as int)),
        {
            let ghost seen = actions.deep_view();
            let ghost done = it.index() as int;
            let action = self.step(event);
            actions.push(action);
            proof {
                let prefix = all.take(done + 1);
                assert(prefix.drop_last() =~= all.take(done));
                assert(prefix.last() == all[done]);
                assert(actions.deep_view() =~= seen.push(action@));
            }
        }
        proof {
            assert(all.take(all.len() as int) =~= all);
            use_type_invariant(&*self);
        }
        actions
    }
}

} // verus!
