mod local;
mod web;

pub use local::{presence_action, presence_spec, ExactService, Service};
pub use web::{availability_action, availability_spec, Probe, ProbeView};
