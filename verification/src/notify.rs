use vstd::prelude::*;

verus! {

/// The ability to deliver a message, with an optional diagnostic, to whoever
/// is listening. An `Err` carries the reason why delivery failed.
pub trait Notify: Send + Sync {
    fn send(&self, msg: &str, diagnostic: Option<String>) -> Result<(), String>;
}

} // verus!
