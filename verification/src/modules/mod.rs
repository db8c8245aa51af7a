//! Monitors and notifiers that come with the library.

pub mod monitor;
pub mod notify;
