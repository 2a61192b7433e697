//! Port wiring: the requests that connect one plugin's outputs to
//! another's inputs, and the request that instantiates a plugin.

use crate::model::{PluginInstance, PluginInstanceView};
use vstd::prelude::*;

verus! {

/// Kind of plugin implementation that the plugin backend is asked to host.
#[derive(Clone, Copy, Debug, PartialEq, Eq, Structural)]
pub enum PluginType {
    Lv2,
}

/// Request to the plugin backend for a new plugin instance.
#[derive(Clone, Debug, PartialEq, Eq)]
pub struct CreatePluginInstanceRequest {
    pub plugin_type: PluginType,
    pub plugin_uri: String,
}

/// Mathematical value of a [`CreatePluginInstanceRequest`].
pub struct CreatePluginInstanceRequestView {
    pub plugin_type: PluginType,
    pub plugin_uri: Seq<char>,
}

impl View for CreatePluginInstanceRequest {
    type V = CreatePluginInstanceRequestView;

    open spec fn view(&self) -> CreatePluginInstanceRequestView {
        CreatePluginInstanceRequestView {
            plugin_type: self.plugin_type,
            plugin_uri: self.plugin_uri@,
        }
    }
}

/// Request to the graph backend for one link between two ports. Nodes are
/// addressed by name.
#[derive(Clone, Debug, PartialEq, Eq)]
pub struct CreateLinkByNameRequest {
    pub output_port_id: u32,
    pub input_port_id: u32,
    pub output_node_name: String,
    pub input_node_name: String,
}

/// Mathematical value of a [`CreateLinkByNameRequest`].
pub struct CreateLinkByNameRequestView {
    pub output_port_id: u32,
    pub input_port_id: u32,
    pub output_node_name: Seq<char>,
    pub input_node_name: Seq<char>,
}

impl View for CreateLinkByNameRequest {
    type V = CreateLinkByNameRequestView;

    open spec fn view(&self) -> CreateLinkByNameRequestView {
        CreateLinkByNameRequestView {
            output_port_id: self.output_port_id,
            input_port_id: self.input_port_id,
            output_node_name: self.output_node_name@,
            input_node_name: self.input_node_name@,
        }
    }
}

impl DeepView for CreateLinkByNameRequest {
    type V = CreateLinkByNameRequestView;

    open spec fn deep_view(&self) -> CreateLinkByNameRequestView {
        self@
    }
}

impl CreateLinkByNameRequest {
    /// A second request for the same link.
    pub fn duplicate(&self) -> (copy: CreateLinkByNameRequest)
        ensures
            copy@ == self@,
    {
        CreateLinkByNameRequest {
            output_port_id: self.output_port_id,
            input_port_id: self.input_port_id,
            output_node_name: self.output_node_name.clone(),
            input_node_name: self.input_node_name.clone(),
        }
    }
}

/// The link from one port of `output` to one port of `input`.
pub open spec fn link(
    output: PluginInstanceView,
    output_port_id: u32,
    input: PluginInstanceView,
    input_port_id: u32,
) -> CreateLinkByNameRequestView {
    CreateLinkByNameRequestView {
        output_port_id,
        input_port_id,
        output_node_name: output.name,
        input_node_name: input.name,
    }
}

/// A stereo connection: left to left, then right to right.
pub open spec fn stereo_links(
    output: PluginInstanceView,
    input: PluginInstanceView,
) -> Seq<CreateLinkByNameRequestView> {
    seq![link(output, 0, input, 0), link(output, 1, input, 1)]
}

/// A stereo connection into the second input pair of a cross-fader.
pub open spec fn second_pair_links(
    output: PluginInstanceView,
    cross_fader: PluginInstanceView,
) -> Seq<CreateLinkByNameRequestView> {
    seq![link(output, 0, cross_fader, 2), link(output, 1, cross_fader, 3)]
}

/// The request that instantiates the plugin behind `uri`.
pub fn create_plugin(uri: String) -> (request: CreatePluginInstanceRequest)
    ensures
        request@ == (CreatePluginInstanceRequestView {
            plugin_type: PluginType::Lv2,
            plugin_uri: uri@,
        }),
{
    CreatePluginInstanceRequest { plugin_type: PluginType::Lv2, plugin_uri: uri }
}

fn link_ports(
    output: &PluginInstance,
    output_port_id: u32,
    input: &PluginInstance,
    input_port_id: u32,
) -> (request: CreateLinkByNameRequest)
    ensures
        request@ == link(output@, output_port_id, input@, input_port_id),
{
    CreateLinkByNameRequest {
        output_port_id,
        input_port_id,
        output_node_name: output.name.clone(),
        input_node_name: input.name.clone(),
    }
}

/// The two links that connect `output` to `input`, in the order in which
/// they are to be made.
pub fn connect_plugins(output: &PluginInstance, input: &PluginInstance) -> (links: Vec<
    CreateLinkByNameRequest,
>)
    ensures
        links.len() == 2,
        links.deep_view() == stereo_links(output@, input@),
{
    let mut links: Vec<CreateLinkByNameRequest> = Vec::new();
    links.push(link_ports(output, 0, input, 0));
    links.push(link_ports(output, 1, input, 1));
    links
}

/// The links of the left leg of an output stage: into the cross-fader's
/// first input pair.
pub fn connect_cross_fader_left(output: &PluginInstance, cross_fader: &PluginInstance) -> (links:
    Vec<CreateLinkByNameRequest>)
    ensures
        links.len() == 2,
        links.deep_view() == stereo_links(output@, cross_fader@),
{
    connect_plugins(output, cross_fader)
}

/// The links of the right leg of an output stage: into the cross-fader's
/// second input pair.
pub fn connect_cross_fader_right(output: &PluginInstance, cross_fader: &PluginInstance) -> (links:
    Vec<CreateLinkByNameRequest>)
    ensures
        links.len() == 2,
        links.deep_view() == second_pair_links(output@, cross_fader@),
{
    let mut links: Vec<CreateLinkByNameRequest> = Vec::new();
    links.push(link_ports(output, 0, cross_fader, 2));
    links.push(link_ports(output, 1, cross_fader, 3));
    links
}

} // verus!
