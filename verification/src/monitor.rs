use vstd::prelude::*;

verus! {

/// What a monitor reports each time it is checked.
#[derive(Debug, PartialEq, Eq)]
pub enum Action {
    /// A status message that is delivered every time it is reported.
    Update { message: Option<String> },
    /// The condition is unhealthy; delivered only when the entry was healthy before.
    Notify { diagnostic: Option<String> },
    /// The condition is healthy; delivered only when the entry was alerting before.
    Nothing,
}

/// An `Action` with its texts taken as sequences of characters.
pub enum ActionView {
    Update { message: Option<Seq<char>> },
    Notify { diagnostic: Option<Seq<char>> },
    Nothing,
}

/// The characters of an optional text.
pub open spec fn text_of(text: Option<String>) -> Option<Seq<char>> {
    match text {
        Some(s) => Some(s@),
        None => None,
    }
}

impl View for Action {
    type V = ActionView;

    open spec fn view(&self) -> ActionView {
        match *self {
            Action::Update { message } => ActionView::Update { message: text_of(message) },
            Action::Notify { diagnostic } => ActionView::Notify { diagnostic: text_of(diagnostic) },
            Action::Nothing => ActionView::Nothing,
        }
    }
}

/// The ability to examine some condition and report on it.
///
/// A monitor that cannot determine the condition reports `Action::Notify`
/// with a diagnostic; there is no separate error path.
pub trait Monitor: Send + Sync {
    fn check(&mut self) -> Action;
}

/// A monitor may be lent to a schedule in place of being given to it.
impl<M: Monitor + ?Sized> Monitor for &mut M {
    fn check(&mut self) -> (action: Action)
        // The lent monitor is checked once and its report is handed on: the
        // report is one that a single `check` of the monitor, as it was, can
        // give, and the monitor is left as that `check` left it.
        ensures
            exists|lent: &mut M|
                &*lent == &**old(self) && &*final(lent) == &**final(self) && #[trigger] call_ensures(
                    M::check,
                    (lent,),
                    action,
                ),
    {
        (**self).check()
    }
}

} // verus!
