//! What the actor exchanges with its surroundings: requests and their
//! answers, the calls it asks for and the outcomes it is told.

use crate::error::{AssemblyError, AssemblyStep, FailureCause};
use crate::factory::utils::{
    CreateLinkByNameRequest, CreateLinkByNameRequestView, CreatePluginInstanceRequest,
    CreatePluginInstanceRequestView,
};
use crate::model::{ChannelStripKind, ChannelStripPluginsView, PluginInstance};
use vstd::prelude::*;

verus! {

/// Sending half of a `tokio` one-shot channel: the single-use reply slot
/// that arrives with a request. The library never looks inside it; a slot
/// is carried from the request to the answer and handed out there.
#[verifier::external_type_specification]
#[verifier::external_body]
#[verifier::reject_recursive_types(T)]
pub struct ExOneshotSender<T>(tokio::sync::oneshot::Sender<T>);

/// Reply slot of a channel strip request.
pub type ChannelStripReplySlot = tokio::sync::oneshot::Sender<
    Result<CreateChannelStripResponse, AssemblyError>,
>;

/// Reply slot of an output stage request.
pub type OutputStageReplySlot = tokio::sync::oneshot::Sender<
    Result<CreateOutputStageResponse, AssemblyError>,
>;

/// The record of a channel strip that was built and registered.
#[derive(Clone, Debug, PartialEq, Eq)]
pub struct CreateChannelStripResponse {
    pub id: u32,
    pub name: String,
    pub cross_fader: Option<PluginInstance>,
    pub saturator: PluginInstance,
    pub compressor: PluginInstance,
    pub equalizer: PluginInstance,
    pub gain: PluginInstance,
    pub channel_type: ChannelStripKind,
}

/// Mathematical value of a [`CreateChannelStripResponse`].
pub struct CreateChannelStripResponseView {
    pub id: u32,
    pub name: Seq<char>,
    pub plugins: ChannelStripPluginsView,
    pub channel_type: ChannelStripKind,
}

impl View for CreateChannelStripResponse {
    type V = CreateChannelStripResponseView;

    open spec fn view(&self) -> CreateChannelStripResponseView {
        CreateChannelStripResponseView {
            id: self.id,
            name: self.name@,
            plugins: ChannelStripPluginsView {
                cross_fader: match self.cross_fader {
                    Some(fader) => Some(fader@),
                    None => None,
                },
                saturator: self.saturator@,
                compressor: self.compressor@,
                equalizer: self.equalizer@,
                gain: self.gain@,
            },
            channel_type: self.channel_type,
        }
    }
}

/// The record of an output stage that was built and registered.
#[derive(Clone, Debug, PartialEq, Eq)]
pub struct CreateOutputStageResponse {
    pub id: u32,
    pub name: String,
    pub left_channel_strip_id: u32,
    pub right_channel_strip_id: u32,
    pub cross_fader_plugin_id: u32,
}

/// Mathematical value of a [`CreateOutputStageResponse`].
pub struct CreateOutputStageResponseView {
    pub id: u32,
    pub name: Seq<char>,
    pub left_channel_strip_id: u32,
    pub right_channel_strip_id: u32,
    pub cross_fader_plugin_id: u32,
}

impl View for CreateOutputStageResponse {
    type V = CreateOutputStageResponseView;

    open spec fn view(&self) -> CreateOutputStageResponseView {
        CreateOutputStageResponseView {
            id: self.id,
            name: self.name@,
            left_channel_strip_id: self.left_channel_strip_id,
            right_channel_strip_id: self.right_channel_strip_id,
            cross_fader_plugin_id: self.cross_fader_plugin_id,
        }
    }
}

/// Value of the answer to a channel strip request.
pub open spec fn channel_strip_answer(
    response: Result<CreateChannelStripResponse, AssemblyError>,
) -> Result<CreateChannelStripResponseView, AssemblyError> {
    match response {
        Ok(record) => Ok(record@),
        Err(error) => Err(error),
    }
}

/// Value of the answer to an output stage request.
pub open spec fn output_stage_answer(
    response: Result<CreateOutputStageResponse, AssemblyError>,
) -> Result<CreateOutputStageResponseView, AssemblyError> {
    match response {
        Ok(record) => Ok(record@),
        Err(error) => Err(error),
    }
}

/// A request to the actor. Each carries the slot for its one answer.
#[allow(inconsistent_fields)]
#[derive(Debug)]
pub enum FactoryRequest {
    CreateChannelStrip {
        name: String,
        response_sender: ChannelStripReplySlot,
        channel_type: ChannelStripKind,
    },
    CreateOutputStage { name: String, response_sender: OutputStageReplySlot },
}

/// Mathematical value of a [`FactoryRequest`].
#[allow(inconsistent_fields)]
pub enum FactoryRequestView {
    CreateChannelStrip {
        name: Seq<char>,
        response_sender: ChannelStripReplySlot,
        channel_type: ChannelStripKind,
    },
    CreateOutputStage { name: Seq<char>, response_sender: OutputStageReplySlot },
}

impl View for FactoryRequest {
    type V = FactoryRequestView;

    open spec fn view(&self) -> FactoryRequestView {
        match *self {
            FactoryRequest::CreateChannelStrip { name, response_sender, channel_type } => {
                FactoryRequestView::CreateChannelStrip {
                    name: name@,
                    response_sender,
                    channel_type,
                }
            },
            FactoryRequest::CreateOutputStage { name, response_sender } => {
                FactoryRequestView::CreateOutputStage { name: name@, response_sender }
            },
        }
    }
}

/// What the plugin backend says of an instance it created.
#[derive(Clone, Debug, PartialEq, Eq)]
pub struct CreatedPlugin {
    pub id: u32,
    pub name: String,
}

/// Mathematical value of a [`CreatedPlugin`].
pub struct CreatedPluginView {
    pub id: u32,
    pub name: Seq<char>,
}

impl View for CreatedPlugin {
    type V = CreatedPluginView;

    open spec fn view(&self) -> CreatedPluginView {
        CreatedPluginView { id: self.id, name: self.name@ }
    }
}

/// How the backend call that the actor last asked for ended.
#[derive(Clone, Debug, PartialEq, Eq)]
pub enum BackendOutcome {
    /// The plugin backend answered; `None` when its answer holds no plugin.
    PluginInstanceCreated(Option<CreatedPlugin>),
    /// The graph backend acknowledged a link.
    LinkCreated,
    /// The registry acknowledged a channel strip.
    ChannelStripRegistered,
    /// The registry stored an output stage under `id`.
    OutputStageRegistered { id: u32 },
    /// The call failed.
    Failed,
}

/// Mathematical value of a [`BackendOutcome`].
pub enum BackendOutcomeView {
    PluginInstanceCreated(Option<CreatedPluginView>),
    LinkCreated,
    ChannelStripRegistered,
    OutputStageRegistered { id: u32 },
    Failed,
}

impl View for BackendOutcome {
    type V = BackendOutcomeView;

    open spec fn view(&self) -> BackendOutcomeView {
        match *self {
            BackendOutcome::PluginInstanceCreated(Some(plugin)) => {
                BackendOutcomeView::PluginInstanceCreated(Some(plugin@))
            },
            BackendOutcome::PluginInstanceCreated(None) => {
                BackendOutcomeView::PluginInstanceCreated(None)
            },
            BackendOutcome::LinkCreated => BackendOutcomeView::LinkCreated,
            BackendOutcome::ChannelStripRegistered => BackendOutcomeView::ChannelStripRegistered,
            BackendOutcome::OutputStageRegistered { id } => {
                BackendOutcomeView::OutputStageRegistered { id }
            },
            BackendOutcome::Failed => BackendOutcomeView::Failed,
        }
    }
}

impl BackendOutcomeView {
    /// Whether this outcome is the good end of the call made at `step`.
    pub open spec fn answers(self, step: AssemblyStep) -> bool {
        match step {
            AssemblyStep::Instantiate { .. } => self matches BackendOutcomeView::PluginInstanceCreated(
                Some(_),
            ),
            AssemblyStep::Wire { .. } => self is LinkCreated,
            AssemblyStep::RegisterChannelStrip => self is ChannelStripRegistered,
            AssemblyStep::RegisterOutputStage => self is OutputStageRegistered,
        }
    }

    /// The failure to report when this outcome is not the one that `step`
    /// was waiting for: a failed call is the backend's fault, any other
    /// outcome breaks the protocol.
    pub open spec fn failure_at(self, step: AssemblyStep) -> AssemblyError {
        AssemblyError::Failed {
            step,
            cause: if self is Failed {
                FailureCause::BackendUnavailable
            } else {
                FailureCause::ProtocolViolation
            },
        }
    }
}

impl BackendOutcome {
    /// The failure to report when this outcome is not the one that `step`
    /// was waiting for.
    pub fn failure_at(&self, step: AssemblyStep) -> (error: AssemblyError)
        ensures
            error == self@.failure_at(step),
    {
        let cause = match self {
            BackendOutcome::Failed => FailureCause::BackendUnavailable,
            _ => FailureCause::ProtocolViolation,
        };
        AssemblyError::Failed { step, cause }
    }
}

/// What happened since the actor last acted.
#[derive(Debug)]
pub enum FactoryEvent {
    /// A request was taken from the mailbox.
    Request(FactoryRequest),
    /// The backend call that was asked for has ended.
    Outcome(BackendOutcome),
}

/// Mathematical value of a [`FactoryEvent`].
pub enum FactoryEventView {
    Request(FactoryRequestView),
    Outcome(BackendOutcomeView),
}

impl View for FactoryEvent {
    type V = FactoryEventView;

    open spec fn view(&self) -> FactoryEventView {
        match *self {
            FactoryEvent::Request(request) => FactoryEventView::Request(request@),
            FactoryEvent::Outcome(outcome) => FactoryEventView::Outcome(outcome@),
        }
    }
}

impl DeepView for FactoryEvent {
    type V = FactoryEventView;

    open spec fn deep_view(&self) -> FactoryEventView {
        self@
    }
}

/// The flat record of a channel strip: what goes to the registry, and
/// what a caller of the service is told.
#[derive(Clone, Debug, PartialEq, Eq)]
pub struct PmxChannelStrip {
    pub id: u32,
    pub name: String,
    pub channel_type: ChannelStripKind,
    pub cross_fader_plugin_id: Option<u32>,
    pub saturator_plugin_id: u32,
    pub compressor_plugin_id: u32,
    pub equalizer_plugin_id: u32,
    pub gain_plugin_id: u32,
}

/// Mathematical value of a [`PmxChannelStrip`].
pub struct PmxChannelStripView {
    pub id: u32,
    pub name: Seq<char>,
    pub channel_type: ChannelStripKind,
    pub cross_fader_plugin_id: Option<u32>,
    pub saturator_plugin_id: u32,
    pub compressor_plugin_id: u32,
    pub equalizer_plugin_id: u32,
    pub gain_plugin_id: u32,
}

impl View for PmxChannelStrip {
    type V = PmxChannelStripView;

    open spec fn view(&self) -> PmxChannelStripView {
        PmxChannelStripView {
            id: self.id,
            name: self.name@,
            channel_type: self.channel_type,
            cross_fader_plugin_id: self.cross_fader_plugin_id,
            saturator_plugin_id: self.saturator_plugin_id,
            compressor_plugin_id: self.compressor_plugin_id,
            equalizer_plugin_id: self.equalizer_plugin_id,
            gain_plugin_id: self.gain_plugin_id,
        }
    }
}

/// The output stage record that goes to the registry, which assigns the
/// stage's identifier.
#[derive(Clone, Debug, PartialEq, Eq)]
pub struct RegisterOutputStageRequest {
    pub name: String,
    pub left_channel_strip_id: u32,
    pub right_channel_strip_id: u32,
    pub cross_fader_plugin_id: u32,
}

/// Mathematical value of a [`RegisterOutputStageRequest`].
pub struct RegisterOutputStageRequestView {
    pub name: Seq<char>,
    pub left_channel_strip_id: u32,
    pub right_channel_strip_id: u32,
    pub cross_fader_plugin_id: u32,
}

impl View for RegisterOutputStageRequest {
    type V = RegisterOutputStageRequestView;

    open spec fn view(&self) -> RegisterOutputStageRequestView {
        RegisterOutputStageRequestView {
            name: self.name@,
            left_channel_strip_id: self.left_channel_strip_id,
            right_channel_strip_id: self.right_channel_strip_id,
            cross_fader_plugin_id: self.cross_fader_plugin_id,
        }
    }
}

/// What the actor wants done next. After a backend call its outcome is the
/// next event; after an answer, or when there is nothing to do, the next
/// event is the next request.
#[allow(inconsistent_fields)]
#[derive(Debug)]
pub enum FactoryAction {
    /// Take the next request from the mailbox.
    AwaitRequest,
    /// Call the plugin backend.
    CreatePluginInstance(CreatePluginInstanceRequest),
    /// Call the graph backend.
    CreateLinkByName(CreateLinkByNameRequest),
    /// Write a channel strip to the registry.
    RegisterChannelStrip(PmxChannelStrip),
    /// Write an output stage to the registry.
    RegisterOutputStage(RegisterOutputStageRequest),
    /// Put the answer to a channel strip request into its slot.
    ReplyChannelStrip {
        response_sender: ChannelStripReplySlot,
        response: Result<CreateChannelStripResponse, AssemblyError>,
    },
    /// Put the answer to an output stage request into its slot.
    ReplyOutputStage {
        response_sender: OutputStageReplySlot,
        response: Result<CreateOutputStageResponse, AssemblyError>,
    },
}

/// Mathematical value of a [`FactoryAction`].
#[allow(inconsistent_fields)]
pub enum FactoryActionView {
    AwaitRequest,
    CreatePluginInstance(CreatePluginInstanceRequestView),
    CreateLinkByName(CreateLinkByNameRequestView),
    RegisterChannelStrip(PmxChannelStripView),
    RegisterOutputStage(RegisterOutputStageRequestView),
    ReplyChannelStrip {
        response_sender: ChannelStripReplySlot,
        response: Result<CreateChannelStripResponseView, AssemblyError>,
    },
    ReplyOutputStage {
        response_sender: OutputStageReplySlot,
        response: Result<CreateOutputStageResponseView, AssemblyError>,
    },
}

impl View for FactoryAction {
    type V = FactoryActionView;

    open spec fn view(&self) -> FactoryActionView {
        match *self {
            FactoryAction::AwaitRequest => FactoryActionView::AwaitRequest,
            FactoryAction::CreatePluginInstance(request) => {
                FactoryActionView::CreatePluginInstance(request@)
            },
            FactoryAction::CreateLinkByName(request) => {
                FactoryActionView::CreateLinkByName(request@)
            },
            FactoryAction::RegisterChannelStrip(request) => {
                FactoryActionView::RegisterChannelStrip(request@)
            },
            FactoryAction::RegisterOutputStage(request) => {
                FactoryActionView::RegisterOutputStage(request@)
            },
            FactoryAction::ReplyChannelStrip { response_sender, response } => {
                FactoryActionView::ReplyChannelStrip {
                    response_sender,
                    response: channel_strip_answer(response),
                }
            },
            FactoryAction::ReplyOutputStage { response_sender, response } => {
                FactoryActionView::ReplyOutputStage {
                    response_sender,
                    response: output_stage_answer(response),
                }
            },
        }
    }
}

impl DeepView for FactoryAction {
    type V = FactoryActionView;

    open spec fn deep_view(&self) -> FactoryActionView {
        self@
    }
}

/// What became of an action that was handed over for delivery.
#[derive(Debug)]
pub enum Delivery {
    /// The action is a call, not an answer: it comes back to be made.
    NotAnAnswer(FactoryAction),
    /// The answer is in its slot.
    Delivered,
    /// The caller of a channel strip request is gone: its answer comes
    /// back. What was built stays built and registered.
    UnclaimedChannelStrip(Result<CreateChannelStripResponse, AssemblyError>),
    /// The caller of an output stage request is gone: its answer comes
    /// back. What was built stays built and registered.
    UnclaimedOutputStage(Result<CreateOutputStageResponse, AssemblyError>),
}

/// Mathematical value of a [`Delivery`].
pub enum DeliveryView {
    NotAnAnswer(FactoryActionView),
    Delivered,
    UnclaimedChannelStrip(Result<CreateChannelStripResponseView, AssemblyError>),
    UnclaimedOutputStage(Result<CreateOutputStageResponseView, AssemblyError>),
}

impl View for Delivery {
    type V = DeliveryView;

    open spec fn view(&self) -> DeliveryView {
        match *self {
            Delivery::NotAnAnswer(action) => DeliveryView::NotAnAnswer(action@),
            Delivery::Delivered => DeliveryView::Delivered,
            Delivery::UnclaimedChannelStrip(response) => DeliveryView::UnclaimedChannelStrip(
                channel_strip_answer(response),
            ),
            Delivery::UnclaimedOutputStage(response) => DeliveryView::UnclaimedOutputStage(
                output_stage_answer(response),
            ),
        }
    }
}

/// `tokio::sync::oneshot::Sender::send`: puts `answer` into the slot and
/// uses the slot up. Where the receiving half is gone the answer comes
/// back as the error, unchanged. Whether it is gone is not for the sender
/// to know beforehand, so nothing is claimed of which of the two happens.
#[verifier::external_body]
fn send<T>(slot: tokio::sync::oneshot::Sender<T>, answer: T) -> (returned: Result<(), T>)
    ensures
        returned matches Err(back) ==> back == answer,
{
    slot.send(answer)
}

/// What became of a channel strip answer, told from what the slot gave
/// back.
pub fn channel_strip_delivery(
    returned: Result<(), Result<CreateChannelStripResponse, AssemblyError>>,
) -> (delivery: Delivery)
    ensures
        delivery@ == match returned {
            Ok(_) => DeliveryView::Delivered,
            Err(back) => DeliveryView::UnclaimedChannelStrip(channel_strip_answer(back)),
        },
{
    match returned {
        Ok(_) => Delivery::Delivered,
        Err(back) => Delivery::UnclaimedChannelStrip(back),
    }
}

/// What became of an output stage answer, told from what the slot gave
/// back.
pub fn output_stage_delivery(
    returned: Result<(), Result<CreateOutputStageResponse, AssemblyError>>,
) -> (delivery: Delivery)
    ensures
        delivery@ == match returned {
            Ok(_) => DeliveryView::Delivered,
            Err(back) => DeliveryView::UnclaimedOutputStage(output_stage_answer(back)),
        },
{
    match returned {
        Ok(_) => Delivery::Delivered,
        Err(back) => Delivery::UnclaimedOutputStage(back),
    }
}

/// Carries out an answer: puts it into its slot. A call comes back as it
/// is, to be made by whoever talks to the backends. An answer whose
/// caller is gone comes back too, so that it is not lost from sight;
/// nothing that was built for it is undone.
pub fn deliver(action: FactoryAction) -> (delivery: Delivery)
    ensures
        match action@ {
            FactoryActionView::ReplyChannelStrip { response, .. } => delivery@ is Delivered
                || delivery@ == DeliveryView::UnclaimedChannelStrip(response),
            FactoryActionView::ReplyOutputStage { response, .. } => delivery@ is Delivered
                || delivery@ == DeliveryView::UnclaimedOutputStage(response),
            _ => delivery@ == DeliveryView::NotAnAnswer(action@),
        },
{
    match action {
        FactoryAction::ReplyChannelStrip { response_sender, response } => channel_strip_delivery(
            send(response_sender, response),
        ),
        FactoryAction::ReplyOutputStage { response_sender, response } => output_stage_delivery(
            send(response_sender, response),
        ),
        call => Delivery::NotAnAnswer(call),
    }
}

} // verus!
