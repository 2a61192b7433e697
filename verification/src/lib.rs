//! Assembly of audio channel strips and stereo output stages.
//!
//! The crate holds the decisions of the assembly actor: which plugin
//! instances to ask for, which ports to link and in what order, when to
//! register a result and what to answer. The calls to the three backend
//! services are made by the caller, which hands each outcome back as an
//! event.

pub mod error;
pub mod factory;
pub mod factory_service;
pub mod model;
pub mod traces;
