//! The channel strip assembler: instantiates the plugins of one strip and
//! wires them to each other. It never touches the registry.

use crate::error::{AssemblyError, AssemblyStep};
use crate::factory::protocol::{
    BackendOutcome, BackendOutcomeView, FactoryAction, FactoryActionView,
};
use crate::factory::utils::{
    connect_plugins, create_plugin, link, stereo_links, CreateLinkByNameRequest,
    CreateLinkByNameRequestView, CreatePluginInstanceRequestView, PluginType,
};
pub use crate::model::ChannelStripPlugins;
use crate::model::{
    chain_len, chain_role, chain_roles, ChannelStripKind, ChannelStripPluginsView, FactoryConfig,
    FactoryConfigView, PluginInstance, PluginInstanceView, PluginRole,
};
use vstd::prelude::*;

verus! {

/// The links inside a strip, in the order in which they are made: the
/// cross-fader into the saturator where there is one, then down the chain.
pub open spec fn strip_links(plugins: ChannelStripPluginsView) -> Seq<CreateLinkByNameRequestView> {
    let head = match plugins.cross_fader {
        Some(fader) => stereo_links(fader, plugins.saturator),
        None => Seq::empty(),
    };
    head + stereo_links(plugins.saturator, plugins.compressor) + stereo_links(
        plugins.compressor,
        plugins.equalizer,
    ) + stereo_links(plugins.equalizer, plugins.gain)
}

/// The call that asks for the instance of `role`.
pub open spec fn instantiate_call(config: FactoryConfigView, role: PluginRole) -> FactoryActionView {
    FactoryActionView::CreatePluginInstance(
        CreatePluginInstanceRequestView {
            plugin_type: PluginType::Lv2,
            plugin_uri: config.plugin_uri(role),
        },
    )
}

/// The wiring step during which link number `issued` of a strip is made.
pub open spec fn wire_step(kind: ChannelStripKind, issued: int) -> AssemblyStep {
    AssemblyStep::Wire {
        from: chain_roles(kind)[issued / 2],
        to: chain_roles(kind)[issued / 2 + 1],
    }
}

/// A strip has two links for each plugin but the last of its chain.
pub proof fn lemma_strip_links_len(plugins: ChannelStripPluginsView)
    ensures
        strip_links(plugins).len() == 2 * (chain_roles(plugins.kind()).len() - 1),
{
}

/// No link of a strip is asked for twice: where the plugins of a strip
/// have names of their own, as the plugin backend gives them, the links of
/// the strip differ from each other.
pub proof fn lemma_strip_links_differ(plugins: ChannelStripPluginsView)
    requires
        forall|i: int, j: int|
            0 <= i < j < plugins.chain().len() ==> (#[trigger] plugins.chain()[i]).name != (
            #[trigger] plugins.chain()[j]).name,
    ensures
        forall|i: int, j: int|
            0 <= i < j < strip_links(plugins).len() ==> #[trigger] strip_links(plugins)[i]
                != #[trigger] strip_links(plugins)[j],
{
    let chain = plugins.chain();
    let links = strip_links(plugins);
    lemma_strip_links_len(plugins);
    assert forall|i: int| 0 <= i < links.len() implies #[trigger] links[i] == link(
        chain[i / 2],
        (i % 2) as u32,
        chain[i / 2 + 1],
        (i % 2) as u32,
    ) by {}
    assert forall|i: int, j: int| 0 <= i < j < links.len() implies #[trigger] links[i]
        != #[trigger] links[j] by {
        let a = chain[i / 2];
        let b = chain[j / 2];
        if i / 2 == j / 2 {
            assert(i % 2 != j % 2);
        } else {
            assert(a.name != b.name);
        }
    }
}

/// How far the assembly of a strip has come.
#[derive(Debug)]
enum StripStage {
    /// Waiting for the instance of the next role; `created` holds the
    /// instances of the roles before it.
    Instantiating { created: Vec<PluginInstance> },
    /// Waiting for the acknowledgement of link number `issued`.
    Wiring { plugins: ChannelStripPlugins, links: Vec<CreateLinkByNameRequest>, issued: usize },
}

/// A channel strip that is being assembled.
#[derive(Debug)]
pub struct ChannelStripAssembly {
    kind: ChannelStripKind,
    stage: StripStage,
}

/// Mathematical value of an assembly's stage.
pub enum StripStageView {
    Instantiating { created: Seq<PluginInstanceView> },
    Wiring { plugins: ChannelStripPluginsView, issued: int },
}

/// Mathematical value of a [`ChannelStripAssembly`].
pub struct ChannelStripAssemblyView {
    pub kind: ChannelStripKind,
    pub stage: StripStageView,
}

/// Mathematical value of a [`StripProgress`].
pub enum StripProgressView {
    Pending(ChannelStripAssemblyView, FactoryActionView),
    Complete(ChannelStripPluginsView),
    Failed(AssemblyError),
}

impl ChannelStripAssemblyView {
    /// The assembly of a strip of which nothing exists yet.
    pub open spec fn start(kind: ChannelStripKind) -> Self {
        ChannelStripAssemblyView {
            kind,
            stage: StripStageView::Instantiating { created: Seq::empty() },
        }
    }

    /// An assembly always waits for a call that is part of its strip.
    pub open spec fn wf(self) -> bool {
        match self.stage {
            StripStageView::Instantiating { created } => created.len() < chain_roles(
                self.kind,
            ).len(),
            StripStageView::Wiring { plugins, issued } => {
                &&& plugins.kind() == self.kind
                &&& 0 <= issued < strip_links(plugins).len()
            },
        }
    }

    /// The step whose outcome the assembly waits for.
    pub open spec fn pending_step(self) -> AssemblyStep {
        match self.stage {
            StripStageView::Instantiating { created } => AssemblyStep::Instantiate {
                role: chain_roles(self.kind)[created.len() as int],
            },
            StripStageView::Wiring { issued, .. } => wire_step(self.kind, issued),
        }
    }

    /// The call whose outcome the assembly waits for.
    pub open spec fn pending_call(self, config: FactoryConfigView) -> FactoryActionView {
        match self.stage {
            StripStageView::Instantiating { created } => instantiate_call(
                config,
                chain_roles(self.kind)[created.len() as int],
            ),
            StripStageView::Wiring { plugins, issued } => FactoryActionView::CreateLinkByName(
                strip_links(plugins)[issued],
            ),
        }
    }

    /// The assembly after the awaited call ended well, or `None` when that
    /// call was the last one. `created` is what the plugin backend said,
    /// where the call was an instantiation.
    pub open spec fn advanced(self, config: FactoryConfigView, outcome: BackendOutcomeView)
        -> StripProgressView {
        match (self.stage, outcome) {
            (
                StripStageView::Instantiating { created },
                BackendOutcomeView::PluginInstanceCreated(Some(plugin)),
            ) => {
                let role = chain_roles(self.kind)[created.len() as int];
                let chain = created.push(
                    PluginInstanceView {
                        id: plugin.id,
                        name: plugin.name,
                        uri: config.plugin_uri(role),
                    },
                );
                let next = if chain.len() < chain_roles(self.kind).len() {
                    ChannelStripAssemblyView {
                        kind: self.kind,
                        stage: StripStageView::Instantiating { created: chain },
                    }
                } else {
                    ChannelStripAssemblyView {
                        kind: self.kind,
                        stage: StripStageView::Wiring {
                            plugins: ChannelStripPluginsView::from_chain(self.kind, chain),
                            issued: 0,
                        },
                    }
                };
                StripProgressView::Pending(next, next.pending_call(config))
            },
            (StripStageView::Wiring { plugins, issued }, BackendOutcomeView::LinkCreated) => {
                if issued + 1 < strip_links(plugins).len() {
                    let next = ChannelStripAssemblyView {
                        kind: self.kind,
                        stage: StripStageView::Wiring { plugins, issued: issued + 1 },
                    };
                    StripProgressView::Pending(next, next.pending_call(config))
                } else {
                    StripProgressView::Complete(plugins)
                }
            },
            _ => StripProgressView::Failed(outcome.failure_at(self.pending_step())),
        }
    }
}

/// The assembler keeps its strip's kind, and stays sound, as long as it
/// goes on.
pub proof fn lemma_assembly_keeps_kind(
    assembly: ChannelStripAssemblyView,
    config: FactoryConfigView,
    outcome: BackendOutcomeView,
)
    requires
        assembly.wf(),
    ensures
        match assembly.advanced(config, outcome) {
            StripProgressView::Pending(next, call) => {
                &&& next.wf()
                &&& next.kind == assembly.kind
                &&& call == next.pending_call(config)
            },
            StripProgressView::Complete(plugins) => plugins.kind() == assembly.kind,
            StripProgressView::Failed(_) => true,
        },
{
    match assembly.stage {
        StripStageView::Instantiating { created } => {
            match outcome {
                BackendOutcomeView::PluginInstanceCreated(Some(plugin)) => {
                    let role = chain_roles(assembly.kind)[created.len() as int];
                    let chain = created.push(
                        PluginInstanceView {
                            id: plugin.id,
                            name: plugin.name,
                            uri: config.plugin_uri(role),
                        },
                    );
                    if chain.len() >= chain_roles(assembly.kind).len() {
                        lemma_strip_links_len(
                            ChannelStripPluginsView::from_chain(assembly.kind, chain),
                        );
                    }
                },
                _ => {},
            }
        },
        StripStageView::Wiring { plugins, issued } => {},
    }
}

impl View for ChannelStripAssembly {
    type V = ChannelStripAssemblyView;

    closed spec fn view(&self) -> ChannelStripAssemblyView {
        ChannelStripAssemblyView {
            kind: self.kind,
            stage: match self.stage {
                StripStage::Instantiating { created } => StripStageView::Instantiating {
                    created: created.deep_view(),
                },
                StripStage::Wiring { plugins, issued, .. } => StripStageView::Wiring {
                    plugins: plugins@,
                    issued: issued as int,
                },
            },
        }
    }
}

impl ChannelStripAssembly {
    /// What holds of every assembly: it waits for a call that is part of its
    /// strip, and the links that it holds are those of its plugins.
    #[verifier::type_invariant]
    pub closed spec fn wf(&self) -> bool {
        &&& self@.wf()
        &&& match self.stage {
            StripStage::Instantiating { .. } => true,
            StripStage::Wiring { plugins, links, .. } => links.deep_view() == strip_links(
                plugins@,
            ),
        }
    }

    /// A sound assembly has a sound value.
    pub proof fn lemma_wf(&self)
        requires
            self.wf(),
        ensures
            self@.wf(),
    {
    }
}

impl ChannelStripAssembly {
    /// The kind of strip that is being assembled.
    pub fn kind(&self) -> (kind: ChannelStripKind)
        ensures
            kind == self@.kind,
    {
        self.kind
    }

    /// Takes the outcome of the awaited call. A good outcome of the right
    /// sort moves the assembly on to its next call, or completes it; any
    /// other outcome ends it with the failure of the awaited step.
    pub fn resume(self, outcome: BackendOutcome, config: &FactoryConfig) -> (progress: StripProgress)
        ensures
            progress@ == self@.advanced(config@, outcome@),
            progress.wf(),
    {
        proof {
            use_type_invariant(&self);
        }
        let ChannelStripAssembly { kind, stage } = self;
        match stage {
            StripStage::Instantiating { created } => {
                let mut created = created;
                let ghost before = created.deep_view();
                let role = chain_role(kind, created.len());
                match outcome {
                    BackendOutcome::PluginInstanceCreated(Some(plugin)) => {
                        let instance = PluginInstance {
                            id: plugin.id,
                            name: plugin.name,
                            uri: config.plugin_uri(role),
                        };
                        created.push(instance);
                        assert(created.deep_view() =~= before.push(instance@));
                        if created.len() < chain_len(kind) {
                            let next_role = chain_role(kind, created.len());
                            let call = FactoryAction::CreatePluginInstance(
                                create_plugin(config.plugin_uri(next_role)),
                            );
                            let next = ChannelStripAssembly {
                                kind,
                                stage: StripStage::Instantiating { created },
                            };
                            StripProgress::Pending(next, call)
                        } else {
                            let plugins = create_channel_strip_plugins(kind, created);
                            let links = connect_channel_internals(&plugins);
                            proof {
                                lemma_strip_links_len(plugins@);
                                assert(links.deep_view().len() == links.len());
                                assert(links.deep_view()[0] == links[0]@);
                            }
                            let call = FactoryAction::CreateLinkByName(links[0].duplicate());
                            let next = ChannelStripAssembly {
                                kind,
                                stage: StripStage::Wiring { plugins, links, issued: 0 },
                            };
                            StripProgress::Pending(next, call)
                        }
                    },
                    other => StripProgress::Failed(
                        other.failure_at(AssemblyStep::Instantiate { role }),
                    ),
                }
            },
            StripStage::Wiring { plugins, links, issued } => {
                match outcome {
                    BackendOutcome::LinkCreated => {
                        proof {
                            lemma_strip_links_len(plugins@);
                            assert(links.deep_view().len() == links.len());
                        }
                        if issued + 1 < links.len() {
                            assert(links.deep_view()[issued + 1] == links[issued + 1]@);
                            let call = FactoryAction::CreateLinkByName(
                                links[issued + 1].duplicate(),
                            );
                            let next = ChannelStripAssembly {
                                kind,
                                stage: StripStage::Wiring { plugins, links, issued: issued + 1 },
                            };
                            StripProgress::Pending(next, call)
                        } else {
                            StripProgress::Complete(plugins)
                        }
                    },
                    other => {
                        proof {
                            lemma_strip_links_len(plugins@);
                        }
                        let step = AssemblyStep::Wire {
                            from: chain_role(kind, issued / 2),
                            to: chain_role(kind, issued / 2 + 1),
                        };
                        StripProgress::Failed(other.failure_at(step))
                    },
                }
            },
        }
    }
}

/// Begins the assembly of a strip: nothing exists yet, and the first call
/// asks for the instance at the head of the chain.
pub fn create_channel_strip(kind: ChannelStripKind, config: &FactoryConfig) -> (started: (
    ChannelStripAssembly,
    FactoryAction,
))
    ensures
        started.0@ == ChannelStripAssemblyView::start(kind),
        started.0.wf(),
        started.1@ == started.0@.pending_call(config@),
{
    let role = chain_role(kind, 0);
    let call = FactoryAction::CreatePluginInstance(create_plugin(config.plugin_uri(role)));
    let created: Vec<PluginInstance> = Vec::new();
    assert(created.deep_view() =~= Seq::empty());
    let assembly = ChannelStripAssembly { kind, stage: StripStage::Instantiating { created } };
    (assembly, call)
}

/// What an assembly has come to after an outcome.
#[derive(Debug)]
pub enum StripProgress {
    /// The assembly goes on: the call is to be made next.
    Pending(ChannelStripAssembly, FactoryAction),
    /// The strip is instantiated and wired.
    Complete(ChannelStripPlugins),
    /// The assembly was given up.
    Failed(AssemblyError),
}

impl View for StripProgress {
    type V = StripProgressView;

    open spec fn view(&self) -> StripProgressView {
        match *self {
            StripProgress::Pending(assembly, action) => StripProgressView::Pending(
                assembly@,
                action@,
            ),
            StripProgress::Complete(plugins) => StripProgressView::Complete(plugins@),
            StripProgress::Failed(error) => StripProgressView::Failed(error),
        }
    }
}

impl StripProgress {
    /// A pending assembly is a sound one.
    pub open spec fn wf(&self) -> bool {
        match *self {
            StripProgress::Pending(assembly, _) => assembly.wf(),
            _ => true,
        }
    }
}

/// The plugin set of a strip whose whole chain has been instantiated.
pub fn create_channel_strip_plugins(kind: ChannelStripKind, created: Vec<PluginInstance>) -> (plugins:
    ChannelStripPlugins)
    requires
        created.len() == chain_roles(kind).len(),
    ensures
        plugins@ == ChannelStripPluginsView::from_chain(kind, created.deep_view()),
{
    let mut rest = created;
    let ghost chain = rest.deep_view();
    let gain = rest.pop().unwrap();
    let equalizer = rest.pop().unwrap();
    let compressor = rest.pop().unwrap();
    let saturator = rest.pop().unwrap();
    let cross_fader = match kind {
        ChannelStripKind::Basic => None,
        ChannelStripKind::CrossFaded => rest.pop(),
    };
    ChannelStripPlugins { cross_fader, saturator, compressor, equalizer, gain }
}

/// The links inside a strip, in the order in which they are to be made.
pub fn connect_channel_internals(plugins: &ChannelStripPlugins) -> (links: Vec<
    CreateLinkByNameRequest,
>)
    ensures
        links.len() == strip_links(plugins@).len(),
        links.deep_view() == strip_links(plugins@),
{
    let mut links: Vec<CreateLinkByNameRequest> = Vec::new();
    match &plugins.cross_fader {
        Some(fader) => {
            let mut head = connect_plugins(fader, &plugins.saturator);
            links.append(&mut head);
        },
        None => {},
    }
    let mut first = connect_plugins(&plugins.saturator, &plugins.compressor);
    links.append(&mut first);
    let mut second = connect_plugins(&plugins.compressor, &plugins.equalizer);
    links.append(&mut second);
    let mut third = connect_plugins(&plugins.equalizer, &plugins.gain);
    links.append(&mut third);
    links
}

} // verus!
