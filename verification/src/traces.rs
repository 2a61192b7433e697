//! What whole runs of the actor look like: theorems about the sequences of
//! events that it is given and of actions that it answers with.

pub mod channel_strip;
pub mod correlation;
pub mod identifiers;
pub mod output_stage;
pub mod runs;
pub mod turns;
pub mod wiring_order;
