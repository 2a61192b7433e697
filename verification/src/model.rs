//! Plain data of the assembly: strip kinds, plugin roles, plugin instances,
//! the plugin set of a strip and the per-role configuration.

use vstd::prelude::*;

verus! {

/// Shape of a channel strip's plugin chain.
#[derive(Clone, Copy, Debug, PartialEq, Eq, Structural)]
pub enum ChannelStripKind {
    Basic,
    CrossFaded,
}

/// Logical position of a plugin inside a channel strip or an output stage.
#[derive(Clone, Copy, Debug, PartialEq, Eq, Structural)]
pub enum PluginRole {
    CrossFader,
    Saturator,
    Compressor,
    Equalizer,
    Gain,
}

/// The roles of a strip of the given kind, in chain order: each plugin
/// feeds the one after it.
pub open spec fn chain_roles(kind: ChannelStripKind) -> Seq<PluginRole> {
    match kind {
        ChannelStripKind::Basic => seq![
            PluginRole::Saturator,
            PluginRole::Compressor,
            PluginRole::Equalizer,
            PluginRole::Gain,
        ],
        ChannelStripKind::CrossFaded => seq![
            PluginRole::CrossFader,
            PluginRole::Saturator,
            PluginRole::Compressor,
            PluginRole::Equalizer,
            PluginRole::Gain,
        ],
    }
}

/// Number of plugins in a strip of the given kind.
pub fn chain_len(kind: ChannelStripKind) -> (n: usize)
    ensures
        n == chain_roles(kind).len(),
{
    match kind {
        ChannelStripKind::Basic => 4,
        ChannelStripKind::CrossFaded => 5,
    }
}

/// The role at a position of the chain.
pub fn chain_role(kind: ChannelStripKind, position: usize) -> (role: PluginRole)
    requires
        position < chain_roles(kind).len(),
    ensures
        role == chain_roles(kind)[position as int],
{
    let offset: usize = match kind {
        ChannelStripKind::Basic => 1,
        ChannelStripKind::CrossFaded => 0,
    };
    let slot: usize = position + offset;
    if slot == 0 {
        PluginRole::CrossFader
    } else if slot == 1 {
        PluginRole::Saturator
    } else if slot == 2 {
        PluginRole::Compressor
    } else if slot == 3 {
        PluginRole::Equalizer
    } else {
        PluginRole::Gain
    }
}

/// A live plugin hosted by the plugin backend.
#[derive(Clone, Debug, PartialEq, Eq)]
pub struct PluginInstance {
    /// Identifier that the backend assigned.
    pub id: u32,
    /// Unique name, the key by which the graph backend finds the node.
    pub name: String,
    /// Reference to the plugin implementation that was instantiated.
    pub uri: String,
}

/// Mathematical value of a [`PluginInstance`].
pub struct PluginInstanceView {
    pub id: u32,
    pub name: Seq<char>,
    pub uri: Seq<char>,
}

impl View for PluginInstance {
    type V = PluginInstanceView;

    open spec fn view(&self) -> PluginInstanceView {
        PluginInstanceView { id: self.id, name: self.name@, uri: self.uri@ }
    }
}

impl DeepView for PluginInstance {
    type V = PluginInstanceView;

    open spec fn deep_view(&self) -> PluginInstanceView {
        self@
    }
}

/// The plugin set of one channel strip, before it is registered.
#[derive(Clone, Debug, PartialEq, Eq)]
pub struct ChannelStripPlugins {
    pub cross_fader: Option<PluginInstance>,
    pub saturator: PluginInstance,
    pub compressor: PluginInstance,
    pub equalizer: PluginInstance,
    pub gain: PluginInstance,
}

/// Mathematical value of a [`ChannelStripPlugins`].
pub struct ChannelStripPluginsView {
    pub cross_fader: Option<PluginInstanceView>,
    pub saturator: PluginInstanceView,
    pub compressor: PluginInstanceView,
    pub equalizer: PluginInstanceView,
    pub gain: PluginInstanceView,
}

impl ChannelStripPluginsView {
    /// The kind that this plugin set belongs to: a strip is cross-faded
    /// exactly when it has a cross-fader.
    pub open spec fn kind(self) -> ChannelStripKind {
        if self.cross_fader is Some {
            ChannelStripKind::CrossFaded
        } else {
            ChannelStripKind::Basic
        }
    }

    /// The plugins in chain order.
    pub open spec fn chain(self) -> Seq<PluginInstanceView> {
        let tail = seq![self.saturator, self.compressor, self.equalizer, self.gain];
        match self.cross_fader {
            Some(fader) => seq![fader] + tail,
            None => tail,
        }
    }

    /// The plugin set made of the instances of a complete chain.
    pub open spec fn from_chain(kind: ChannelStripKind, chain: Seq<PluginInstanceView>) -> Self
        recommends
            chain.len() == chain_roles(kind).len(),
    {
        match kind {
            ChannelStripKind::Basic => ChannelStripPluginsView {
                cross_fader: None,
                saturator: chain[0],
                compressor: chain[1],
                equalizer: chain[2],
                gain: chain[3],
            },
            ChannelStripKind::CrossFaded => ChannelStripPluginsView {
                cross_fader: Some(chain[0]),
                saturator: chain[1],
                compressor: chain[2],
                equalizer: chain[3],
                gain: chain[4],
            },
        }
    }
}

impl View for ChannelStripPlugins {
    type V = ChannelStripPluginsView;

    open spec fn view(&self) -> ChannelStripPluginsView {
        ChannelStripPluginsView {
            cross_fader: match self.cross_fader {
                Some(fader) => Some(fader@),
                None => None,
            },
            saturator: self.saturator@,
            compressor: self.compressor@,
            equalizer: self.equalizer@,
            gain: self.gain@,
        }
    }
}

/// Plugin implementation references of a channel strip, one per role.
#[derive(Clone, Debug, PartialEq, Eq)]
pub struct ChannelStripConfig {
    pub cross_fader_plugin_url: String,
    pub saturator_plugin_url: String,
    pub compressor_plugin_url: String,
    pub equalizer_plugin_url: String,
    pub gain_plugin_url: String,
}

/// Configuration of the factory, fixed when the factory is made.
#[derive(Clone, Debug, PartialEq, Eq)]
pub struct FactoryConfig {
    pub channel_strip: ChannelStripConfig,
}

/// Mathematical value of a [`FactoryConfig`].
pub struct FactoryConfigView {
    pub cross_fader_plugin_url: Seq<char>,
    pub saturator_plugin_url: Seq<char>,
    pub compressor_plugin_url: Seq<char>,
    pub equalizer_plugin_url: Seq<char>,
    pub gain_plugin_url: Seq<char>,
}

impl FactoryConfigView {
    /// The implementation reference configured for a role.
    pub open spec fn plugin_uri(self, role: PluginRole) -> Seq<char> {
        match role {
            PluginRole::CrossFader => self.cross_fader_plugin_url,
            PluginRole::Saturator => self.saturator_plugin_url,
            PluginRole::Compressor => self.compressor_plugin_url,
            PluginRole::Equalizer => self.equalizer_plugin_url,
            PluginRole::Gain => self.gain_plugin_url,
        }
    }
}

impl View for FactoryConfig {
    type V = FactoryConfigView;

    open spec fn view(&self) -> FactoryConfigView {
        FactoryConfigView {
            cross_fader_plugin_url: self.channel_strip.cross_fader_plugin_url@,
            saturator_plugin_url: self.channel_strip.saturator_plugin_url@,
            compressor_plugin_url: self.channel_strip.compressor_plugin_url@,
            equalizer_plugin_url: self.channel_strip.equalizer_plugin_url@,
            gain_plugin_url: self.channel_strip.gain_plugin_url@,
        }
    }
}

impl FactoryConfig {
    /// The implementation reference configured for a role.
    pub fn plugin_uri(&self, role: PluginRole) -> (uri: String)
        ensures
            uri@ == self@.plugin_uri(role),
    {
        match role {
            PluginRole::CrossFader => self.channel_strip.cross_fader_plugin_url.clone(),
            PluginRole::Saturator => self.channel_strip.saturator_plugin_url.clone(),
            PluginRole::Compressor => self.channel_strip.compressor_plugin_url.clone(),
            PluginRole::Equalizer => self.channel_strip.equalizer_plugin_url.clone(),
            PluginRole::Gain => self.channel_strip.gain_plugin_url.clone(),
        }
    }
}

} // verus!
