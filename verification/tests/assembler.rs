use pmx_factory::error::{AssemblyError, AssemblyStep, FailureCause};
use pmx_factory::factory::channel_strip_factory::{
    connect_channel_internals, create_channel_strip, create_channel_strip_plugins, StripProgress,
};
use pmx_factory::factory::protocol::{BackendOutcome, CreatedPlugin, FactoryAction};
use pmx_factory::factory::utils::CreateLinkByNameRequest;
use pmx_factory::model::{
    chain_len, chain_role, ChannelStripConfig, ChannelStripKind, ChannelStripPlugins,
    FactoryConfig, PluginInstance, PluginRole,
};

fn urls() -> FactoryConfig {
    FactoryConfig {
        channel_strip: ChannelStripConfig {
            cross_fader_plugin_url: "lv2://xfade".to_string(),
            saturator_plugin_url: "lv2://sat".to_string(),
            compressor_plugin_url: "lv2://comp".to_string(),
            equalizer_plugin_url: "lv2://eq".to_string(),
            gain_plugin_url: "lv2://gain".to_string(),
        },
    }
}

fn instance(id: u32, name: &str) -> PluginInstance {
    PluginInstance { id, name: name.to_string(), uri: format!("lv2://{}", name) }
}

fn wire(output: &str, output_port_id: u32, input: &str, input_port_id: u32) -> CreateLinkByNameRequest {
    CreateLinkByNameRequest {
        output_port_id,
        input_port_id,
        output_node_name: output.to_string(),
        input_node_name: input.to_string(),
    }
}

fn made(id: u32, name: &str) -> BackendOutcome {
    BackendOutcome::PluginInstanceCreated(Some(CreatedPlugin { id, name: name.to_string() }))
}

#[test]
fn chain_of_a_basic_strip() {
    assert_eq!(chain_len(ChannelStripKind::Basic), 4);
    let roles: Vec<PluginRole> = (0..4).map(|i| chain_role(ChannelStripKind::Basic, i)).collect();
    assert_eq!(
        roles,
        vec![PluginRole::Saturator, PluginRole::Compressor, PluginRole::Equalizer, PluginRole::Gain]
    );
}

#[test]
fn chain_of_a_cross_faded_strip() {
    assert_eq!(chain_len(ChannelStripKind::CrossFaded), 5);
    let roles: Vec<PluginRole> =
        (0..5).map(|i| chain_role(ChannelStripKind::CrossFaded, i)).collect();
    assert_eq!(
        roles,
        vec![
            PluginRole::CrossFader,
            PluginRole::Saturator,
            PluginRole::Compressor,
            PluginRole::Equalizer,
            PluginRole::Gain
        ]
    );
}

#[test]
fn each_role_has_its_own_implementation() {
    let config = urls();
    assert_eq!(config.plugin_uri(PluginRole::CrossFader), "lv2://xfade");
    assert_eq!(config.plugin_uri(PluginRole::Saturator), "lv2://sat");
    assert_eq!(config.plugin_uri(PluginRole::Compressor), "lv2://comp");
    assert_eq!(config.plugin_uri(PluginRole::Equalizer), "lv2://eq");
    assert_eq!(config.plugin_uri(PluginRole::Gain), "lv2://gain");
}

#[test]
fn plugin_set_of_a_basic_chain() {
    let chain = vec![instance(1, "sat"), instance(2, "comp"), instance(3, "eq"), instance(4, "gain")];
    let plugins = create_channel_strip_plugins(ChannelStripKind::Basic, chain);
    assert_eq!(
        plugins,
        ChannelStripPlugins {
            cross_fader: None,
            saturator: instance(1, "sat"),
            compressor: instance(2, "comp"),
            equalizer: instance(3, "eq"),
            gain: instance(4, "gain"),
        }
    );
}

#[test]
fn plugin_set_of_a_cross_faded_chain() {
    let chain = vec![
        instance(9, "xfade"),
        instance(1, "sat"),
        instance(2, "comp"),
        instance(3, "eq"),
        instance(4, "gain"),
    ];
    let plugins = create_channel_strip_plugins(ChannelStripKind::CrossFaded, chain);
    assert_eq!(plugins.cross_fader, Some(instance(9, "xfade")));
    assert_eq!(plugins.saturator, instance(1, "sat"));
    assert_eq!(plugins.compressor, instance(2, "comp"));
    assert_eq!(plugins.equalizer, instance(3, "eq"));
    assert_eq!(plugins.gain, instance(4, "gain"));
}

#[test]
fn internals_of_a_basic_strip() {
    let plugins = ChannelStripPlugins {
        cross_fader: None,
        saturator: instance(1, "sat"),
        compressor: instance(2, "comp"),
        equalizer: instance(3, "eq"),
        gain: instance(4, "gain"),
    };
    assert_eq!(
        connect_channel_internals(&plugins),
        vec![
            wire("sat", 0, "comp", 0),
            wire("sat", 1, "comp", 1),
            wire("comp", 0, "eq", 0),
            wire("comp", 1, "eq", 1),
            wire("eq", 0, "gain", 0),
            wire("eq", 1, "gain", 1),
        ]
    );
}

#[test]
fn internals_of_a_cross_faded_strip() {
    let plugins = ChannelStripPlugins {
        cross_fader: Some(instance(0, "xfade")),
        saturator: instance(1, "sat"),
        compressor: instance(2, "comp"),
        equalizer: instance(3, "eq"),
        gain: instance(4, "gain"),
    };
    assert_eq!(
        connect_channel_internals(&plugins),
        vec![
            wire("xfade", 0, "sat", 0),
            wire("xfade", 1, "sat", 1),
            wire("sat", 0, "comp", 0),
            wire("sat", 1, "comp", 1),
            wire("comp", 0, "eq", 0),
            wire("comp", 1, "eq", 1),
            wire("eq", 0, "gain", 0),
            wire("eq", 1, "gain", 1),
        ]
    );
}

fn expect_plugin_call(action: &FactoryAction, uri: &str) {
    match action {
        FactoryAction::CreatePluginInstance(request) => assert_eq!(request.plugin_uri, uri),
        other => panic!("an instantiation was due, not {:?}", other),
    }
}

fn expect_link_call(action: &FactoryAction, link: CreateLinkByNameRequest) {
    match action {
        FactoryAction::CreateLinkByName(request) => assert_eq!(*request, link),
        other => panic!("a link was due, not {:?}", other),
    }
}

#[test]
fn assembler_instantiates_wires_and_completes() {
    let config = urls();
    let (mut assembly, first) = create_channel_strip(ChannelStripKind::Basic, &config);
    assert_eq!(assembly.kind(), ChannelStripKind::Basic);
    expect_plugin_call(&first, "lv2://sat");

    let outcomes = vec![made(10, "a"), made(11, "b"), made(12, "c"), made(13, "d")];
    let mut calls = Vec::new();
    for outcome in outcomes {
        match assembly.resume(outcome, &config) {
            StripProgress::Pending(next, call) => {
                assembly = next;
                calls.push(call);
            }
            other => panic!("the assembly was to go on, not {:?}", other),
        }
    }
    expect_plugin_call(&calls[0], "lv2://comp");
    expect_plugin_call(&calls[1], "lv2://eq");
    expect_plugin_call(&calls[2], "lv2://gain");
    expect_link_call(&calls[3], wire("a", 0, "b", 0));

    let links = [
        wire("a", 1, "b", 1),
        wire("b", 0, "c", 0),
        wire("b", 1, "c", 1),
        wire("c", 0, "d", 0),
        wire("c", 1, "d", 1),
    ];
    for link in links {
        match assembly.resume(BackendOutcome::LinkCreated, &config) {
            StripProgress::Pending(next, call) => {
                assembly = next;
                expect_link_call(&call, link);
            }
            other => panic!("the assembly was to go on, not {:?}", other),
        }
    }
    match assembly.resume(BackendOutcome::LinkCreated, &config) {
        StripProgress::Complete(plugins) => {
            assert_eq!(plugins.cross_fader, None);
            assert_eq!(
                plugins.saturator,
                PluginInstance { id: 10, name: "a".to_string(), uri: "lv2://sat".to_string() }
            );
            assert_eq!(
                plugins.gain,
                PluginInstance { id: 13, name: "d".to_string(), uri: "lv2://gain".to_string() }
            );
        }
        other => panic!("the strip was to be complete, not {:?}", other),
    }
}

#[test]
fn assembler_gives_up_at_the_first_bad_outcome() {
    let config = urls();
    let (assembly, first) = create_channel_strip(ChannelStripKind::CrossFaded, &config);
    expect_plugin_call(&first, "lv2://xfade");
    match assembly.resume(BackendOutcome::Failed, &config) {
        StripProgress::Failed(error) => assert_eq!(
            error,
            AssemblyError::Failed {
                step: AssemblyStep::Instantiate { role: PluginRole::CrossFader },
                cause: FailureCause::BackendUnavailable,
            }
        ),
        other => panic!("the assembly was to fail, not {:?}", other),
    }

    let (assembly, _) = create_channel_strip(ChannelStripKind::CrossFaded, &config);
    let assembly = match assembly.resume(made(1, "x"), &config) {
        StripProgress::Pending(next, call) => {
            expect_plugin_call(&call, "lv2://sat");
            next
        }
        other => panic!("the assembly was to go on, not {:?}", other),
    };
    match assembly.resume(BackendOutcome::OutputStageRegistered { id: 3 }, &config) {
        StripProgress::Failed(error) => assert_eq!(
            error,
            AssemblyError::Failed {
                step: AssemblyStep::Instantiate { role: PluginRole::Saturator },
                cause: FailureCause::ProtocolViolation,
            }
        ),
        other => panic!("the assembly was to fail, not {:?}", other),
    }
}

#[test]
fn failure_at_tells_fault_from_breach() {
    let step = AssemblyStep::RegisterOutputStage;
    assert_eq!(
        BackendOutcome::Failed.failure_at(step),
        AssemblyError::Failed { step, cause: FailureCause::BackendUnavailable }
    );
    for outcome in [
        BackendOutcome::LinkCreated,
        BackendOutcome::ChannelStripRegistered,
        BackendOutcome::PluginInstanceCreated(None),
        made(1, "p"),
    ] {
        assert_eq!(
            outcome.failure_at(step),
            AssemblyError::Failed { step, cause: FailureCause::ProtocolViolation }
        );
    }
}
