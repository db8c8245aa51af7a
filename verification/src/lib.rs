//! A small liveness watchdog: monitors are polled on a schedule and
//! notifications are sent when a monitored condition changes.
//!
//! A [`Schedule`] holds entries, each of which binds a [`Monitor`] to a
//! [`Notify`] with two messages and an interval. Every tick evaluates the
//! entries that are due. A notification goes out when an entry turns from
//! healthy to unhealthy or back, and the entry changes its alert state only
//! when the notifier has accepted the notification.

mod clock;
mod entry;
pub mod modules;
mod monitor;
mod notify;
mod schedule;
mod transitions;

pub use clock::duration_nanos;
pub use entry::{
    action_calling_for, conclude, handle_entry, lemma_checks_are_an_interval_apart,
    lemma_due_is_stamped, lemma_follows_is_some_evaluation, lemma_not_due_is_untouched,
    lemma_state_moves_on_delivery_only, settle, Entry, EntryView, Notice, NoticeView, Outcome,
};
pub use monitor::{text_of, Action, ActionView, Monitor};
pub use notify::Notify;
pub use schedule::{lemma_tick_skips_what_is_not_due, ticked, Schedule};
pub use transitions::{
    last_edge, lemma_failed_delivery_is_retried, lemma_fire_on_first_signal,
    lemma_recover_on_first_healthy, lemma_repeated_healthy_is_silent,
    lemma_repeated_signals_are_silent, lemma_state_is_last_delivered_edge,
    lemma_update_passes_through, notices, plan_spec, replay, settle_spec, step_spec, NoticeKind,
    Observation,
};
