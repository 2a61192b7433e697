//! Typed failures of an assembly.

use crate::model::PluginRole;
use vstd::prelude::*;

verus! {

/// The step of an assembly at which it failed.
#[derive(Clone, Copy, Debug, PartialEq, Eq, Structural)]
pub enum AssemblyStep {
    /// Asking the plugin backend for the instance of a role.
    Instantiate { role: PluginRole },
    /// Linking the output of one role to the input of another.
    Wire { from: PluginRole, to: PluginRole },
    /// Writing a channel strip to the registry.
    RegisterChannelStrip,
    /// Writing an output stage to the registry.
    RegisterOutputStage,
}

/// Why a step failed.
#[derive(Clone, Copy, Debug, PartialEq, Eq, Structural)]
pub enum FailureCause {
    /// The backend could not be reached or reported a failure.
    BackendUnavailable,
    /// The backend answered, but not with what the step needs.
    ProtocolViolation,
}

/// What a caller gets in place of a record when its request fails.
#[derive(Clone, Copy, Debug, PartialEq, Eq, Structural)]
pub enum AssemblyError {
    /// Another assembly was in flight when the request arrived.
    Busy,
    /// Every channel strip identifier has been handed out.
    IdentifiersExhausted,
    /// A backend step of the assembly failed.
    Failed { step: AssemblyStep, cause: FailureCause },
}

/// The word for a role in a failure's text.
pub open spec fn role_word(role: PluginRole) -> Seq<char> {
    match role {
        PluginRole::CrossFader => "cross-fader"@,
        PluginRole::Saturator => "saturator"@,
        PluginRole::Compressor => "compressor"@,
        PluginRole::Equalizer => "equalizer"@,
        PluginRole::Gain => "gain"@,
    }
}

/// The words for a step in a failure's text.
pub open spec fn step_words(step: AssemblyStep) -> Seq<char> {
    match step {
        AssemblyStep::Instantiate { role } => role_word(role) + " instantiation"@,
        AssemblyStep::Wire { from, to } => role_word(from) + " to "@ + role_word(to) + " wiring"@,
        AssemblyStep::RegisterChannelStrip => "channel strip registration"@,
        AssemblyStep::RegisterOutputStage => "output stage registration"@,
    }
}

/// The words for a cause in a failure's text.
pub open spec fn cause_words(cause: FailureCause) -> Seq<char> {
    match cause {
        FailureCause::BackendUnavailable => "backend unavailable"@,
        FailureCause::ProtocolViolation => "protocol violation"@,
    }
}

/// The text of a failure: for a failed step, the step, then " failed: ",
/// then the cause.
pub open spec fn failure_text(error: AssemblyError) -> Seq<char> {
    match error {
        AssemblyError::Busy => "another assembly is in flight"@,
        AssemblyError::IdentifiersExhausted => "channel strip identifiers exhausted"@,
        AssemblyError::Failed { step, cause } => step_words(step) + " failed: "@ + cause_words(
            cause,
        ),
    }
}

fn role_str(role: PluginRole) -> (word: &'static str)
    ensures
        word@ == role_word(role),
{
    match role {
        PluginRole::CrossFader => "cross-fader",
        PluginRole::Saturator => "saturator",
        PluginRole::Compressor => "compressor",
        PluginRole::Equalizer => "equalizer",
        PluginRole::Gain => "gain",
    }
}

impl AssemblyStep {
    /// The words for this step in a failure's text.
    pub fn describe(&self) -> (text: String)
        ensures
            text@ == step_words(*self),
    {
        match *self {
            AssemblyStep::Instantiate { role } => {
                let mut text = String::from_str(role_str(role));
                text.append(" instantiation");
                text
            },
            AssemblyStep::Wire { from, to } => {
                let mut text = String::from_str(role_str(from));
                text.append(" to ");
                text.append(role_str(to));
                text.append(" wiring");
                text
            },
            AssemblyStep::RegisterChannelStrip => String::from_str("channel strip registration"),
            AssemblyStep::RegisterOutputStage => String::from_str("output stage registration"),
        }
    }
}

impl AssemblyError {
    /// The text of this failure, for a caller to read.
    pub fn describe(&self) -> (text: String)
        ensures
            text@ == failure_text(*self),
    {
        match *self {
            AssemblyError::Busy => String::from_str("another assembly is in flight"),
            AssemblyError::IdentifiersExhausted => String::from_str(
                "channel strip identifiers exhausted",
            ),
            AssemblyError::Failed { step, cause } => {
                let mut text = step.describe();
                text.append(" failed: ");
                match cause {
                    FailureCause::BackendUnavailable => text.append("backend unavailable"),
                    FailureCause::ProtocolViolation => text.append("protocol violation"),
                }
                text
            },
        }
    }
}

} // verus!
