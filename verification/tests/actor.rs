use pmx_factory::error::{AssemblyError, AssemblyStep, FailureCause};
use pmx_factory::factory::protocol::{
    deliver, BackendOutcome, CreateChannelStripResponse, CreateOutputStageResponse, CreatedPlugin,
    Delivery, FactoryAction, FactoryEvent, FactoryRequest, PmxChannelStrip,
    RegisterOutputStageRequest,
};
use pmx_factory::factory::utils::PluginType;
use pmx_factory::factory::Factory;
use pmx_factory::model::{ChannelStripConfig, ChannelStripKind, FactoryConfig, PluginRole};
use tokio::sync::oneshot;

type StripAnswer = Result<CreateChannelStripResponse, AssemblyError>;
type StageAnswer = Result<CreateOutputStageResponse, AssemblyError>;

fn test_config() -> FactoryConfig {
    FactoryConfig {
        channel_strip: ChannelStripConfig {
            cross_fader_plugin_url: "urn:fader".to_string(),
            saturator_plugin_url: "urn:saturator".to_string(),
            compressor_plugin_url: "urn:compressor".to_string(),
            equalizer_plugin_url: "urn:equalizer".to_string(),
            gain_plugin_url: "urn:gain".to_string(),
        },
    }
}

/// A call as the test backends saw it.
#[derive(Clone, Debug, PartialEq)]
enum Call {
    Plugin(String),
    Link(String, u32, String, u32),
    Strip(PmxChannelStrip),
    Stage(RegisterOutputStageRequest),
}

/// Stand-ins for the three backends. Plugin number `n` gets the identifier
/// `100 + n` and the name of its implementation with `-n` behind it.
struct Backends {
    calls: Vec<Call>,
    plugins_made: u32,
    stage_id: u32,
    /// The call, counted from 0 over all calls, that ends with this outcome
    /// instead of its good one.
    spoil: Option<(usize, BackendOutcome)>,
}

impl Backends {
    fn new() -> Backends {
        Backends { calls: Vec::new(), plugins_made: 0, stage_id: 900, spoil: None }
    }

    fn spoiling(call: usize, outcome: BackendOutcome) -> Backends {
        Backends { calls: Vec::new(), plugins_made: 0, stage_id: 900, spoil: Some((call, outcome)) }
    }

    /// Makes a call and gives its outcome. Answers are not its business.
    fn perform(&mut self, action: FactoryAction) -> Result<BackendOutcome, FactoryAction> {
        let number = self.calls.len();
        let good = match action {
            FactoryAction::CreatePluginInstance(request) => {
                assert_eq!(request.plugin_type, PluginType::Lv2);
                let kind = request.plugin_uri.trim_start_matches("urn:").to_string();
                self.calls.push(Call::Plugin(request.plugin_uri));
                let n = self.plugins_made;
                self.plugins_made += 1;
                BackendOutcome::PluginInstanceCreated(Some(CreatedPlugin {
                    id: 100 + n,
                    name: format!("{}-{}", kind, n),
                }))
            }
            FactoryAction::CreateLinkByName(link) => {
                self.calls.push(Call::Link(
                    link.output_node_name,
                    link.output_port_id,
                    link.input_node_name,
                    link.input_port_id,
                ));
                BackendOutcome::LinkCreated
            }
            FactoryAction::RegisterChannelStrip(record) => {
                self.calls.push(Call::Strip(record));
                BackendOutcome::ChannelStripRegistered
            }
            FactoryAction::RegisterOutputStage(record) => {
                self.calls.push(Call::Stage(record));
                BackendOutcome::OutputStageRegistered { id: self.stage_id }
            }
            other => return Err(other),
        };
        match &self.spoil {
            Some((call, outcome)) if *call == number => Ok(outcome.clone()),
            _ => Ok(good),
        }
    }
}

/// Hands a request to the actor and makes its calls until the actor answers.
fn serve(factory: &mut Factory, backends: &mut Backends, request: FactoryRequest) {
    let mut event = FactoryEvent::Request(request);
    loop {
        let action = factory.step(event);
        match backends.perform(action) {
            Ok(outcome) => event = FactoryEvent::Outcome(outcome),
            Err(answer) => {
                assert!(matches!(deliver(answer), Delivery::Delivered));
                return;
            }
        }
    }
}

fn create_strip(
    factory: &mut Factory,
    backends: &mut Backends,
    name: &str,
    kind: ChannelStripKind,
) -> StripAnswer {
    let (response_sender, mut receiver) = oneshot::channel();
    serve(
        factory,
        backends,
        FactoryRequest::CreateChannelStrip {
            name: name.to_string(),
            response_sender,
            channel_type: kind,
        },
    );
    receiver.try_recv().expect("the actor answers before it rests")
}

fn create_stage(factory: &mut Factory, backends: &mut Backends, name: &str) -> StageAnswer {
    let (response_sender, mut receiver) = oneshot::channel();
    serve(
        factory,
        backends,
        FactoryRequest::CreateOutputStage { name: name.to_string(), response_sender },
    );
    receiver.try_recv().expect("the actor answers before it rests")
}

fn plugin(uri: &str) -> Call {
    Call::Plugin(uri.to_string())
}

fn link(output: &str, output_port: u32, input: &str, input_port: u32) -> Call {
    Call::Link(output.to_string(), output_port, input.to_string(), input_port)
}

fn failed(step: AssemblyStep, cause: FailureCause) -> AssemblyError {
    AssemblyError::Failed { step, cause }
}

#[test]
fn new_actor_is_at_rest_and_starts_at_zero() {
    let factory = Factory::new(test_config());
    assert!(factory.is_idle());
    assert_eq!(factory.next_channel_strip_id(), 0);
}

#[test]
fn sequential_channel_strips_get_consecutive_ids() {
    let mut factory = Factory::new(test_config());
    let mut backends = Backends::new();
    let kinds = [
        ChannelStripKind::Basic,
        ChannelStripKind::CrossFaded,
        ChannelStripKind::CrossFaded,
        ChannelStripKind::Basic,
        ChannelStripKind::CrossFaded,
        ChannelStripKind::Basic,
    ];
    let mut ids = Vec::new();
    for kind in kinds {
        let record = create_strip(&mut factory, &mut backends, "strip", kind).unwrap();
        ids.push(record.id);
    }
    assert_eq!(ids, vec![0, 1, 2, 3, 4, 5]);
    assert_eq!(factory.next_channel_strip_id(), 6);
    let registered: Vec<u32> = backends
        .calls
        .iter()
        .filter_map(|call| match call {
            Call::Strip(record) => Some(record.id),
            _ => None,
        })
        .collect();
    assert_eq!(registered, vec![0, 1, 2, 3, 4, 5]);
}

#[test]
fn basic_strip_has_no_cross_fader() {
    let mut factory = Factory::new(test_config());
    let mut backends = Backends::new();
    let record =
        create_strip(&mut factory, &mut backends, "Vocals", ChannelStripKind::Basic).unwrap();
    assert_eq!(record.cross_fader, None);
    assert_eq!(record.channel_type, ChannelStripKind::Basic);
    assert_eq!(record.name, "Vocals");
    assert_eq!(record.saturator.id, 100);
    assert_eq!(record.saturator.name, "saturator-0");
    assert_eq!(record.saturator.uri, "urn:saturator");
    assert_eq!(record.compressor.id, 101);
    assert_eq!(record.compressor.uri, "urn:compressor");
    assert_eq!(record.equalizer.id, 102);
    assert_eq!(record.equalizer.uri, "urn:equalizer");
    assert_eq!(record.gain.id, 103);
    assert_eq!(record.gain.name, "gain-3");
    assert!(!backends.calls.contains(&plugin("urn:fader")));
}

#[test]
fn cross_faded_strip_has_cross_fader() {
    let mut factory = Factory::new(test_config());
    let mut backends = Backends::new();
    let record =
        create_strip(&mut factory, &mut backends, "Keys", ChannelStripKind::CrossFaded).unwrap();
    let fader = record.cross_fader.expect("a cross-faded strip has a cross-fader");
    assert_eq!(fader.id, 100);
    assert_eq!(fader.name, "fader-0");
    assert_eq!(fader.uri, "urn:fader");
    assert_eq!(record.channel_type, ChannelStripKind::CrossFaded);
    assert_eq!(record.saturator.id, 101);
    assert_eq!(record.gain.id, 104);
}

#[test]
fn cross_fader_with_identifier_zero_is_not_absent() {
    let mut factory = Factory::new(test_config());
    let (response_sender, mut receiver) = oneshot::channel();
    let mut event = FactoryEvent::Request(FactoryRequest::CreateChannelStrip {
        name: "Zero".to_string(),
        response_sender,
        channel_type: ChannelStripKind::CrossFaded,
    });
    loop {
        let outcome = match factory.step(event) {
            FactoryAction::CreatePluginInstance(_) => BackendOutcome::PluginInstanceCreated(Some(
                CreatedPlugin { id: 0, name: "zero".to_string() },
            )),
            FactoryAction::CreateLinkByName(_) => BackendOutcome::LinkCreated,
            FactoryAction::RegisterChannelStrip(record) => {
                assert_eq!(record.cross_fader_plugin_id, Some(0));
                BackendOutcome::ChannelStripRegistered
            }
            answer => {
                assert!(matches!(deliver(answer), Delivery::Delivered));
                break;
            }
        };
        event = FactoryEvent::Outcome(outcome);
    }
    let record = receiver.try_recv().unwrap().unwrap();
    assert_eq!(record.cross_fader.map(|fader| fader.id), Some(0));
}

#[test]
fn basic_strip_calls_in_order() {
    let mut factory = Factory::new(test_config());
    let mut backends = Backends::new();
    create_strip(&mut factory, &mut backends, "Bass", ChannelStripKind::Basic).unwrap();
    let expected = vec![
        plugin("urn:saturator"),
        plugin("urn:compressor"),
        plugin("urn:equalizer"),
        plugin("urn:gain"),
        link("saturator-0", 0, "compressor-1", 0),
        link("saturator-0", 1, "compressor-1", 1),
        link("compressor-1", 0, "equalizer-2", 0),
        link("compressor-1", 1, "equalizer-2", 1),
        link("equalizer-2", 0, "gain-3", 0),
        link("equalizer-2", 1, "gain-3", 1),
        Call::Strip(PmxChannelStrip {
            id: 0,
            name: "Bass".to_string(),
            channel_type: ChannelStripKind::Basic,
            cross_fader_plugin_id: None,
            saturator_plugin_id: 100,
            compressor_plugin_id: 101,
            equalizer_plugin_id: 102,
            gain_plugin_id: 103,
        }),
    ];
    assert_eq!(backends.calls, expected);
}

#[test]
fn cross_faded_strip_calls_in_order() {
    let mut factory = Factory::new(test_config());
    let mut backends = Backends::new();
    create_strip(&mut factory, &mut backends, "Pad", ChannelStripKind::CrossFaded).unwrap();
    let expected = vec![
        plugin("urn:fader"),
        plugin("urn:saturator"),
        plugin("urn:compressor"),
        plugin("urn:equalizer"),
        plugin("urn:gain"),
        link("fader-0", 0, "saturator-1", 0),
        link("fader-0", 1, "saturator-1", 1),
        link("saturator-1", 0, "compressor-2", 0),
        link("saturator-1", 1, "compressor-2", 1),
        link("compressor-2", 0, "equalizer-3", 0),
        link("compressor-2", 1, "equalizer-3", 1),
        link("equalizer-3", 0, "gain-4", 0),
        link("equalizer-3", 1, "gain-4", 1),
        Call::Strip(PmxChannelStrip {
            id: 0,
            name: "Pad".to_string(),
            channel_type: ChannelStripKind::CrossFaded,
            cross_fader_plugin_id: Some(100),
            saturator_plugin_id: 101,
            compressor_plugin_id: 102,
            equalizer_plugin_id: 103,
            gain_plugin_id: 104,
        }),
    ];
    assert_eq!(backends.calls, expected);
}

fn basic_strip_calls(first_plugin: u32, id: u32, name: &str) -> Vec<Call> {
    let n = first_plugin;
    let sat = format!("saturator-{}", n);
    let comp = format!("compressor-{}", n + 1);
    let eq = format!("equalizer-{}", n + 2);
    let gain = format!("gain-{}", n + 3);
    vec![
        plugin("urn:saturator"),
        plugin("urn:compressor"),
        plugin("urn:equalizer"),
        plugin("urn:gain"),
        link(&sat, 0, &comp, 0),
        link(&sat, 1, &comp, 1),
        link(&comp, 0, &eq, 0),
        link(&comp, 1, &eq, 1),
        link(&eq, 0, &gain, 0),
        link(&eq, 1, &gain, 1),
        Call::Strip(PmxChannelStrip {
            id,
            name: name.to_string(),
            channel_type: ChannelStripKind::Basic,
            cross_fader_plugin_id: None,
            saturator_plugin_id: 100 + n,
            compressor_plugin_id: 101 + n,
            equalizer_plugin_id: 102 + n,
            gain_plugin_id: 103 + n,
        }),
    ]
}

#[test]
fn output_stage_main() {
    let mut factory = Factory::new(test_config());
    let mut backends = Backends::new();
    let record = create_stage(&mut factory, &mut backends, "Main").unwrap();
    assert_eq!(
        record,
        CreateOutputStageResponse {
            id: 900,
            name: "Main".to_string(),
            left_channel_strip_id: 0,
            right_channel_strip_id: 1,
            cross_fader_plugin_id: 108,
        }
    );
    let mut expected = basic_strip_calls(0, 0, "Left Stage");
    expected.extend(basic_strip_calls(4, 1, "Right Stage"));
    expected.extend(vec![
        plugin("urn:fader"),
        link("gain-3", 0, "fader-8", 0),
        link("gain-3", 1, "fader-8", 1),
        link("gain-7", 0, "fader-8", 2),
        link("gain-7", 1, "fader-8", 3),
        Call::Stage(RegisterOutputStageRequest {
            name: "Main".to_string(),
            left_channel_strip_id: 0,
            right_channel_strip_id: 1,
            cross_fader_plugin_id: 108,
        }),
    ]);
    assert_eq!(backends.calls, expected);
    assert_eq!(factory.next_channel_strip_id(), 2);
    assert!(factory.is_idle());
    let faders = backends.calls.iter().filter(|call| **call == plugin("urn:fader")).count();
    assert_eq!(faders, 1);
}

#[test]
fn output_stage_is_registered_after_both_legs_are_wired() {
    let mut factory = Factory::new(test_config());
    let mut backends = Backends::new();
    create_stage(&mut factory, &mut backends, "Monitors").unwrap();
    let position = |wanted: &Call| backends.calls.iter().position(|call| call == wanted).unwrap();
    let registered =
        backends.calls.iter().position(|call| matches!(call, Call::Stage(_))).unwrap();
    assert!(position(&link("gain-3", 0, "fader-8", 0)) < registered);
    assert!(position(&link("gain-3", 1, "fader-8", 1)) < registered);
    assert!(position(&link("gain-7", 0, "fader-8", 2)) < registered);
    assert!(position(&link("gain-7", 1, "fader-8", 3)) < registered);
    assert_eq!(registered, backends.calls.len() - 1);
}

#[test]
fn strips_and_stages_share_one_identifier_sequence() {
    let mut factory = Factory::new(test_config());
    let mut backends = Backends::new();
    let first = create_strip(&mut factory, &mut backends, "a", ChannelStripKind::Basic).unwrap();
    let stage = create_stage(&mut factory, &mut backends, "b").unwrap();
    let last =
        create_strip(&mut factory, &mut backends, "c", ChannelStripKind::CrossFaded).unwrap();
    assert_eq!(first.id, 0);
    assert_eq!((stage.left_channel_strip_id, stage.right_channel_strip_id), (1, 2));
    assert_eq!(last.id, 3);
    assert_eq!(factory.next_channel_strip_id(), 4);
}

#[test]
fn equalizer_instantiation_failure_is_reported_and_survived() {
    let mut factory = Factory::new(test_config());
    let mut backends = Backends::spoiling(2, BackendOutcome::Failed);
    let answer = create_strip(&mut factory, &mut backends, "Drums", ChannelStripKind::Basic);
    let error = answer.unwrap_err();
    assert_eq!(
        error,
        failed(
            AssemblyStep::Instantiate { role: PluginRole::Equalizer },
            FailureCause::BackendUnavailable
        )
    );
    assert_eq!(error.describe(), "equalizer instantiation failed: backend unavailable");
    assert_eq!(
        backends.calls,
        vec![plugin("urn:saturator"), plugin("urn:compressor"), plugin("urn:equalizer")]
    );
    assert!(!backends.calls.iter().any(|call| matches!(call, Call::Strip(_))));
    assert!(factory.is_idle());

    let mut healthy = Backends::new();
    let record =
        create_strip(&mut factory, &mut healthy, "Drums", ChannelStripKind::Basic).unwrap();
    assert_eq!(record.id, 1);
    assert_eq!(healthy.calls.len(), 11);
}

#[test]
fn answer_without_plugin_is_a_protocol_violation() {
    let mut factory = Factory::new(test_config());
    let mut backends = Backends::spoiling(0, BackendOutcome::PluginInstanceCreated(None));
    let answer = create_strip(&mut factory, &mut backends, "x", ChannelStripKind::CrossFaded);
    assert_eq!(
        answer,
        Err(failed(
            AssemblyStep::Instantiate { role: PluginRole::CrossFader },
            FailureCause::ProtocolViolation
        ))
    );
    assert_eq!(backends.calls, vec![plugin("urn:fader")]);
}

#[test]
fn outcome_of_another_call_is_a_protocol_violation() {
    let mut factory = Factory::new(test_config());
    let mut backends = Backends::spoiling(1, BackendOutcome::LinkCreated);
    let answer = create_strip(&mut factory, &mut backends, "x", ChannelStripKind::Basic);
    assert_eq!(
        answer,
        Err(failed(
            AssemblyStep::Instantiate { role: PluginRole::Compressor },
            FailureCause::ProtocolViolation
        ))
    );
}

#[test]
fn wiring_failure_names_the_connection() {
    // Calls 0 to 3 instantiate, calls 4 to 9 link: call 6 is the first link
    // from the compressor to the equalizer.
    let mut factory = Factory::new(test_config());
    let mut backends = Backends::spoiling(6, BackendOutcome::Failed);
    let answer = create_strip(&mut factory, &mut backends, "x", ChannelStripKind::Basic);
    let error = answer.unwrap_err();
    assert_eq!(
        error,
        failed(
            AssemblyStep::Wire { from: PluginRole::Compressor, to: PluginRole::Equalizer },
            FailureCause::BackendUnavailable
        )
    );
    assert_eq!(error.describe(), "compressor to equalizer wiring failed: backend unavailable");
    assert_eq!(backends.calls.len(), 7);
    assert!(!backends.calls.iter().any(|call| matches!(call, Call::Strip(_))));
}

#[test]
fn wiring_failure_in_cross_faded_strip_names_the_connection() {
    // Calls 0 to 4 instantiate; call 5 and 6 link the cross-fader to the
    // saturator, call 12 is the last link, from the equalizer to the gain.
    let mut factory = Factory::new(test_config());
    let mut backends = Backends::spoiling(6, BackendOutcome::Failed);
    let answer = create_strip(&mut factory, &mut backends, "x", ChannelStripKind::CrossFaded);
    assert_eq!(
        answer,
        Err(failed(
            AssemblyStep::Wire { from: PluginRole::CrossFader, to: PluginRole::Saturator },
            FailureCause::BackendUnavailable
        ))
    );
    let mut factory = Factory::new(test_config());
    let mut backends = Backends::spoiling(12, BackendOutcome::ChannelStripRegistered);
    let answer = create_strip(&mut factory, &mut backends, "x", ChannelStripKind::CrossFaded);
    assert_eq!(
        answer,
        Err(failed(
            AssemblyStep::Wire { from: PluginRole::Equalizer, to: PluginRole::Gain },
            FailureCause::ProtocolViolation
        ))
    );
}

#[test]
fn registration_failure_is_reported() {
    let mut factory = Factory::new(test_config());
    let mut backends = Backends::spoiling(10, BackendOutcome::Failed);
    let answer = create_strip(&mut factory, &mut backends, "x", ChannelStripKind::Basic);
    let error = answer.unwrap_err();
    assert_eq!(
        error,
        failed(AssemblyStep::RegisterChannelStrip, FailureCause::BackendUnavailable)
    );
    assert_eq!(error.describe(), "channel strip registration failed: backend unavailable");
    assert!(factory.is_idle());
    assert_eq!(factory.next_channel_strip_id(), 1);
}

#[test]
fn right_leg_failure_fails_the_stage_and_keeps_the_left_leg() {
    // Calls 0 to 10 are the left leg, call 11 asks for the right leg's
    // saturator.
    let mut factory = Factory::new(test_config());
    let mut backends = Backends::spoiling(11, BackendOutcome::Failed);
    let answer = create_stage(&mut factory, &mut backends, "Main");
    assert_eq!(
        answer,
        Err(failed(
            AssemblyStep::Instantiate { role: PluginRole::Saturator },
            FailureCause::BackendUnavailable
        ))
    );
    assert_eq!(backends.calls.len(), 12);
    assert_eq!(backends.calls[..11], basic_strip_calls(0, 0, "Left Stage")[..]);
    assert!(!backends.calls.iter().any(|call| matches!(call, Call::Stage(_))));
    assert!(factory.is_idle());
    assert_eq!(factory.next_channel_strip_id(), 2);
}

#[test]
fn stage_cross_fader_failure_is_reported() {
    let mut factory = Factory::new(test_config());
    let mut backends = Backends::spoiling(22, BackendOutcome::PluginInstanceCreated(None));
    let answer = create_stage(&mut factory, &mut backends, "Main");
    assert_eq!(
        answer,
        Err(failed(
            AssemblyStep::Instantiate { role: PluginRole::CrossFader },
            FailureCause::ProtocolViolation
        ))
    );
    assert!(!backends.calls.iter().any(|call| matches!(call, Call::Stage(_))));
}

#[test]
fn stage_leg_wiring_failure_is_reported_and_nothing_is_registered() {
    for call in 23..27 {
        let mut factory = Factory::new(test_config());
        let mut backends = Backends::spoiling(call, BackendOutcome::Failed);
        let answer = create_stage(&mut factory, &mut backends, "Main");
        let error = answer.unwrap_err();
        assert_eq!(
            error,
            failed(
                AssemblyStep::Wire { from: PluginRole::Gain, to: PluginRole::CrossFader },
                FailureCause::BackendUnavailable
            )
        );
        assert_eq!(error.describe(), "gain to cross-fader wiring failed: backend unavailable");
        assert_eq!(backends.calls.len(), call + 1);
        assert!(!backends.calls.iter().any(|call| matches!(call, Call::Stage(_))));
        assert!(factory.is_idle());
    }
}

#[test]
fn stage_registration_failure_is_reported() {
    let mut factory = Factory::new(test_config());
    let mut backends = Backends::spoiling(27, BackendOutcome::Failed);
    let answer = create_stage(&mut factory, &mut backends, "Main");
    let error = answer.unwrap_err();
    assert_eq!(error, failed(AssemblyStep::RegisterOutputStage, FailureCause::BackendUnavailable));
    assert_eq!(error.describe(), "output stage registration failed: backend unavailable");
    let mut healthy = Backends::new();
    let record = create_stage(&mut factory, &mut healthy, "Again").unwrap();
    assert_eq!((record.left_channel_strip_id, record.right_channel_strip_id), (2, 3));
}

#[test]
fn request_while_busy_is_refused_and_the_assembly_goes_on() {
    let mut factory = Factory::new(test_config());
    let mut backends = Backends::new();
    let (first_sender, mut first_receiver) = oneshot::channel();
    let (second_sender, mut second_receiver) = oneshot::channel::<StripAnswer>();
    let (third_sender, mut third_receiver) = oneshot::channel::<StageAnswer>();

    let first_call = factory.step(FactoryEvent::Request(FactoryRequest::CreateChannelStrip {
        name: "first".to_string(),
        response_sender: first_sender,
        channel_type: ChannelStripKind::Basic,
    }));
    assert!(!factory.is_idle());

    let refusal = factory.step(FactoryEvent::Request(FactoryRequest::CreateChannelStrip {
        name: "second".to_string(),
        response_sender: second_sender,
        channel_type: ChannelStripKind::CrossFaded,
    }));
    assert!(matches!(deliver(refusal), Delivery::Delivered));
    assert_eq!(second_receiver.try_recv().unwrap(), Err(AssemblyError::Busy));

    let refusal = factory.step(FactoryEvent::Request(FactoryRequest::CreateOutputStage {
        name: "third".to_string(),
        response_sender: third_sender,
    }));
    assert!(matches!(deliver(refusal), Delivery::Delivered));
    assert_eq!(third_receiver.try_recv().unwrap(), Err(AssemblyError::Busy));
    assert_eq!(AssemblyError::Busy.describe(), "another assembly is in flight");
    assert_eq!(factory.next_channel_strip_id(), 1);

    let mut event = FactoryEvent::Outcome(backends.perform(first_call).unwrap());
    loop {
        match backends.perform(factory.step(event)) {
            Ok(outcome) => event = FactoryEvent::Outcome(outcome),
            Err(answer) => {
                assert!(matches!(deliver(answer), Delivery::Delivered));
                break;
            }
        }
    }
    let record = first_receiver.try_recv().unwrap().unwrap();
    assert_eq!(record.id, 0);
    assert_eq!(record.name, "first");
    assert_eq!(backends.calls, basic_strip_calls(0, 0, "first"));
}

#[test]
fn requests_from_a_mailbox_are_served_one_at_a_time() {
    let mut factory = Factory::new(test_config());
    let mut backends = Backends::new();
    let mut receivers = Vec::new();
    let mut mailbox = Vec::new();
    for n in 0..8u32 {
        let (response_sender, receiver) = oneshot::channel();
        receivers.push(receiver);
        mailbox.push(FactoryRequest::CreateChannelStrip {
            name: format!("strip {}", n),
            response_sender,
            channel_type: if n % 3 == 0 {
                ChannelStripKind::CrossFaded
            } else {
                ChannelStripKind::Basic
            },
        });
    }
    // Whatever the order in which the mailbox hands them out.
    mailbox.reverse();
    mailbox.swap(1, 5);
    for request in mailbox {
        serve(&mut factory, &mut backends, request);
    }
    let mut ids: Vec<u32> =
        receivers.iter_mut().map(|receiver| receiver.try_recv().unwrap().unwrap().id).collect();
    ids.sort();
    assert_eq!(ids, vec![0, 1, 2, 3, 4, 5, 6, 7]);
}

#[test]
fn each_answer_goes_into_its_own_slot() {
    let mut factory = Factory::new(test_config());
    let mut backends = Backends::new();
    let (sender_a, mut receiver_a) = oneshot::channel();
    let (sender_b, mut receiver_b) = oneshot::channel();
    serve(
        &mut factory,
        &mut backends,
        FactoryRequest::CreateChannelStrip {
            name: "a".to_string(),
            response_sender: sender_a,
            channel_type: ChannelStripKind::Basic,
        },
    );
    assert!(receiver_b.try_recv().is_err());
    serve(
        &mut factory,
        &mut backends,
        FactoryRequest::CreateChannelStrip {
            name: "b".to_string(),
            response_sender: sender_b,
            channel_type: ChannelStripKind::CrossFaded,
        },
    );
    assert_eq!(receiver_a.try_recv().unwrap().unwrap().name, "a");
    assert_eq!(receiver_b.try_recv().unwrap().unwrap().name, "b");
}

#[test]
fn outcome_at_rest_is_dropped() {
    let mut factory = Factory::new(test_config());
    for outcome in [
        BackendOutcome::LinkCreated,
        BackendOutcome::Failed,
        BackendOutcome::ChannelStripRegistered,
        BackendOutcome::OutputStageRegistered { id: 4 },
        BackendOutcome::PluginInstanceCreated(None),
    ] {
        let action = factory.step(FactoryEvent::Outcome(outcome));
        assert!(matches!(action, FactoryAction::AwaitRequest));
        assert!(factory.is_idle());
        assert_eq!(factory.next_channel_strip_id(), 0);
    }
}

#[test]
fn exhausted_identifiers_refuse_a_channel_strip() {
    let mut factory = Factory::resuming(test_config(), u32::MAX);
    let mut backends = Backends::new();
    let answer = create_strip(&mut factory, &mut backends, "late", ChannelStripKind::Basic);
    assert_eq!(answer, Err(AssemblyError::IdentifiersExhausted));
    assert_eq!(
        AssemblyError::IdentifiersExhausted.describe(),
        "channel strip identifiers exhausted"
    );
    assert!(backends.calls.is_empty());
    assert!(factory.is_idle());
    assert_eq!(factory.next_channel_strip_id(), u32::MAX);
}

#[test]
fn last_identifier_is_still_given() {
    let mut factory = Factory::resuming(test_config(), u32::MAX - 1);
    let mut backends = Backends::new();
    let record =
        create_strip(&mut factory, &mut backends, "last", ChannelStripKind::Basic).unwrap();
    assert_eq!(record.id, u32::MAX - 1);
    assert_eq!(factory.next_channel_strip_id(), u32::MAX);
}

#[test]
fn output_stage_needs_two_identifiers() {
    let mut factory = Factory::resuming(test_config(), u32::MAX - 1);
    let mut backends = Backends::new();
    let answer = create_stage(&mut factory, &mut backends, "late");
    assert_eq!(answer, Err(AssemblyError::IdentifiersExhausted));
    assert!(backends.calls.is_empty());
    assert_eq!(factory.next_channel_strip_id(), u32::MAX - 1);

    let mut factory = Factory::resuming(test_config(), u32::MAX - 2);
    let record = create_stage(&mut factory, &mut backends, "in time").unwrap();
    assert_eq!(record.left_channel_strip_id, u32::MAX - 2);
    assert_eq!(record.right_channel_strip_id, u32::MAX - 1);
    assert_eq!(factory.next_channel_strip_id(), u32::MAX);
}

#[test]
fn run_takes_the_turns_of_a_recorded_trace() {
    let mut factory = Factory::new(test_config());
    let (response_sender, mut receiver) = oneshot::channel();
    let created = |id: u32, name: &str| {
        FactoryEvent::Outcome(BackendOutcome::PluginInstanceCreated(Some(CreatedPlugin {
            id,
            name: name.to_string(),
        })))
    };
    let mut events = vec![
        FactoryEvent::Request(FactoryRequest::CreateChannelStrip {
            name: "replay".to_string(),
            response_sender,
            channel_type: ChannelStripKind::Basic,
        }),
        created(5, "s"),
        created(6, "c"),
        created(7, "e"),
        created(8, "g"),
    ];
    for _ in 0..6 {
        events.push(FactoryEvent::Outcome(BackendOutcome::LinkCreated));
    }
    events.push(FactoryEvent::Outcome(BackendOutcome::ChannelStripRegistered));
    let mut actions = factory.run(events);
    assert_eq!(actions.len(), 12);
    let answer = actions.pop().unwrap();
    assert!(matches!(deliver(answer), Delivery::Delivered));
    let record = receiver.try_recv().unwrap().unwrap();
    assert_eq!(record.id, 0);
    assert_eq!(
        (record.saturator.id, record.compressor.id, record.equalizer.id, record.gain.id),
        (5, 6, 7, 8)
    );
    assert!(matches!(actions[0], FactoryAction::CreatePluginInstance(_)));
    assert!(matches!(actions[3], FactoryAction::CreatePluginInstance(_)));
    match &actions[4] {
        FactoryAction::CreateLinkByName(link) => {
            assert_eq!(link.output_node_name, "s");
            assert_eq!(link.input_node_name, "c");
            assert_eq!((link.output_port_id, link.input_port_id), (0, 0));
        }
        other => panic!("a link was due, not {:?}", other),
    }
    assert!(matches!(actions[9], FactoryAction::CreateLinkByName(_)));
    assert!(matches!(actions[10], FactoryAction::RegisterChannelStrip(_)));
    assert!(factory.is_idle());
    assert!(factory.run(Vec::new()).is_empty());
}

#[test]
fn register_channel_strip_flattens_the_plugin_set() {
    let mut factory = Factory::new(test_config());
    let mut backends = Backends::new();
    let record =
        create_strip(&mut factory, &mut backends, "Lead", ChannelStripKind::CrossFaded).unwrap();
    let plugins = pmx_factory::model::ChannelStripPlugins {
        cross_fader: record.cross_fader.clone(),
        saturator: record.saturator.clone(),
        compressor: record.compressor.clone(),
        equalizer: record.equalizer.clone(),
        gain: record.gain.clone(),
    };
    let flat = Factory::register_channel_strip(42, &"Lead".to_string(), &plugins);
    assert_eq!(
        flat,
        PmxChannelStrip {
            id: 42,
            name: "Lead".to_string(),
            channel_type: ChannelStripKind::CrossFaded,
            cross_fader_plugin_id: Some(100),
            saturator_plugin_id: 101,
            compressor_plugin_id: 102,
            equalizer_plugin_id: 103,
            gain_plugin_id: 104,
        }
    );
}
