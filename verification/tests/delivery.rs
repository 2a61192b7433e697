use pmx_factory::error::{AssemblyError, AssemblyStep, FailureCause};
use pmx_factory::factory::protocol::{
    channel_strip_delivery, deliver, output_stage_delivery, CreateChannelStripResponse,
    CreateOutputStageResponse, Delivery, FactoryAction, RegisterOutputStageRequest,
};
use pmx_factory::factory::utils::create_plugin;
use pmx_factory::factory::protocol::PmxChannelStrip;
use pmx_factory::factory_service::channel_strip_reply;
use pmx_factory::model::{ChannelStripKind, PluginInstance, PluginRole};
use tokio::sync::oneshot;

fn instance(id: u32, name: &str) -> PluginInstance {
    PluginInstance { id, name: name.to_string(), uri: format!("urn:{}", name) }
}

fn strip_record(with_fader: bool) -> CreateChannelStripResponse {
    CreateChannelStripResponse {
        id: 12,
        name: "Guitar".to_string(),
        cross_fader: if with_fader { Some(instance(0, "fader")) } else { None },
        saturator: instance(31, "sat"),
        compressor: instance(32, "comp"),
        equalizer: instance(33, "eq"),
        gain: instance(34, "gain"),
        channel_type: if with_fader { ChannelStripKind::CrossFaded } else { ChannelStripKind::Basic },
    }
}

fn stage_record() -> CreateOutputStageResponse {
    CreateOutputStageResponse {
        id: 5,
        name: "Main".to_string(),
        left_channel_strip_id: 2,
        right_channel_strip_id: 3,
        cross_fader_plugin_id: 40,
    }
}

#[test]
fn answer_reaches_a_waiting_caller() {
    let (response_sender, mut receiver) = oneshot::channel();
    let action = FactoryAction::ReplyChannelStrip { response_sender, response: Ok(strip_record(true)) };
    assert!(matches!(deliver(action), Delivery::Delivered));
    assert_eq!(receiver.try_recv().unwrap(), Ok(strip_record(true)));
}

#[test]
fn failure_reaches_a_waiting_caller() {
    let (response_sender, mut receiver) = oneshot::channel();
    let error = AssemblyError::Failed {
        step: AssemblyStep::RegisterOutputStage,
        cause: FailureCause::ProtocolViolation,
    };
    let action = FactoryAction::ReplyOutputStage { response_sender, response: Err(error) };
    assert!(matches!(deliver(action), Delivery::Delivered));
    assert_eq!(receiver.try_recv().unwrap(), Err(error));
}

#[test]
fn channel_strip_answer_comes_back_when_the_caller_is_gone() {
    let (response_sender, receiver) = oneshot::channel();
    drop(receiver);
    let action =
        FactoryAction::ReplyChannelStrip { response_sender, response: Ok(strip_record(false)) };
    match deliver(action) {
        Delivery::UnclaimedChannelStrip(back) => assert_eq!(back, Ok(strip_record(false))),
        other => panic!("the answer was to come back, not {:?}", other),
    }
}

#[test]
fn output_stage_answer_comes_back_when_the_caller_is_gone() {
    let (response_sender, receiver) = oneshot::channel();
    drop(receiver);
    let action = FactoryAction::ReplyOutputStage { response_sender, response: Ok(stage_record()) };
    match deliver(action) {
        Delivery::UnclaimedOutputStage(back) => assert_eq!(back, Ok(stage_record())),
        other => panic!("the answer was to come back, not {:?}", other),
    }
}

#[test]
fn call_is_handed_back_to_be_made() {
    match deliver(FactoryAction::CreatePluginInstance(create_plugin("urn:gain".to_string()))) {
        Delivery::NotAnAnswer(FactoryAction::CreatePluginInstance(request)) => {
            assert_eq!(request.plugin_uri, "urn:gain")
        }
        other => panic!("the call was to come back, not {:?}", other),
    }
    let record = RegisterOutputStageRequest {
        name: "Main".to_string(),
        left_channel_strip_id: 0,
        right_channel_strip_id: 1,
        cross_fader_plugin_id: 2,
    };
    match deliver(FactoryAction::RegisterOutputStage(record.clone())) {
        Delivery::NotAnAnswer(FactoryAction::RegisterOutputStage(back)) => assert_eq!(back, record),
        other => panic!("the call was to come back, not {:?}", other),
    }
    assert!(matches!(
        deliver(FactoryAction::AwaitRequest),
        Delivery::NotAnAnswer(FactoryAction::AwaitRequest)
    ));
}

#[test]
fn delivery_is_told_from_what_the_slot_gave_back() {
    assert!(matches!(channel_strip_delivery(Ok(())), Delivery::Delivered));
    assert!(matches!(output_stage_delivery(Ok(())), Delivery::Delivered));
    match channel_strip_delivery(Err(Err(AssemblyError::Busy))) {
        Delivery::UnclaimedChannelStrip(back) => assert_eq!(back, Err(AssemblyError::Busy)),
        other => panic!("the answer was to come back, not {:?}", other),
    }
    match output_stage_delivery(Err(Ok(stage_record()))) {
        Delivery::UnclaimedOutputStage(back) => assert_eq!(back, Ok(stage_record())),
        other => panic!("the answer was to come back, not {:?}", other),
    }
}

#[test]
fn caller_is_told_the_flat_record_of_a_cross_faded_strip() {
    assert_eq!(
        channel_strip_reply(&strip_record(true)),
        PmxChannelStrip {
            id: 12,
            name: "Guitar".to_string(),
            channel_type: ChannelStripKind::CrossFaded,
            cross_fader_plugin_id: Some(0),
            saturator_plugin_id: 31,
            compressor_plugin_id: 32,
            equalizer_plugin_id: 33,
            gain_plugin_id: 34,
        }
    );
}

#[test]
fn caller_is_told_the_flat_record_of_a_basic_strip() {
    let record = channel_strip_reply(&strip_record(false));
    assert_eq!(record.cross_fader_plugin_id, None);
    assert_eq!(record.channel_type, ChannelStripKind::Basic);
    assert_eq!(record.gain_plugin_id, 34);
}

#[test]
fn failure_texts() {
    assert_eq!(
        AssemblyStep::Instantiate { role: PluginRole::Saturator }.describe(),
        "saturator instantiation"
    );
    assert_eq!(
        AssemblyStep::Instantiate { role: PluginRole::Gain }.describe(),
        "gain instantiation"
    );
    assert_eq!(
        AssemblyStep::Wire { from: PluginRole::CrossFader, to: PluginRole::Saturator }.describe(),
        "cross-fader to saturator wiring"
    );
    assert_eq!(AssemblyStep::RegisterChannelStrip.describe(), "channel strip registration");
    assert_eq!(AssemblyStep::RegisterOutputStage.describe(), "output stage registration");
    assert_eq!(
        AssemblyError::Failed {
            step: AssemblyStep::Instantiate { role: PluginRole::Compressor },
            cause: FailureCause::ProtocolViolation,
        }
        .describe(),
        "compressor instantiation failed: protocol violation"
    );
}
