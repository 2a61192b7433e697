//! The service's side of a request: what a caller is told of the channel
//! strip that was built for it.

use crate::factory::protocol::{
    CreateChannelStripResponse, CreateChannelStripResponseView, PmxChannelStrip,
    PmxChannelStripView,
};
use crate::factory::machine::strip_record;
use vstd::prelude::*;

verus! {

/// The flat record of a channel strip's answer: the strip's identifier,
/// name and kind, and the identifier of each plugin. The cross-fader's is
/// there exactly when the strip has a cross-fader.
pub open spec fn reply_record(response: CreateChannelStripResponseView) -> PmxChannelStripView {
    PmxChannelStripView {
        id: response.id,
        name: response.name,
        channel_type: response.channel_type,
        cross_fader_plugin_id: match response.plugins.cross_fader {
            Some(fader) => Some(fader.id),
            None => None,
        },
        saturator_plugin_id: response.plugins.saturator.id,
        compressor_plugin_id: response.plugins.compressor.id,
        equalizer_plugin_id: response.plugins.equalizer.id,
        gain_plugin_id: response.plugins.gain.id,
    }
}

/// The flat record that a caller of the service is given for the channel
/// strip that was built for it.
pub fn channel_strip_reply(response: &CreateChannelStripResponse) -> (record: PmxChannelStrip)
    ensures
        record@ == reply_record(response@),
{
    let cross_fader_plugin_id = match &response.cross_fader {
        Some(fader) => Some(fader.id),
        None => None,
    };
    PmxChannelStrip {
        id: response.id,
        name: response.name.clone(),
        channel_type: response.channel_type,
        cross_fader_plugin_id,
        saturator_plugin_id: response.saturator.id,
        compressor_plugin_id: response.compressor.id,
        equalizer_plugin_id: response.equalizer.id,
        gain_plugin_id: response.gain.id,
    }
}

/// A caller is told what the registry holds: for a strip whose kind goes
/// with its plugin set, as in every answer of the actor, the record given
/// to the caller is the record under which the strip was registered.
pub proof fn lemma_reply_is_registered_record(response: CreateChannelStripResponseView)
    requires
        response.channel_type == response.plugins.kind(),
    ensures
        reply_record(response) == strip_record(response.id, response.name, response.plugins),
{
}

} // verus!
