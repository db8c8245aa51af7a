use vstd::prelude::*;
use vstd::string::*;
use crate::monitor::{Action, ActionView};

verus! {

/// What came of one request to a web service.
#[derive(Debug, PartialEq, Eq)]
pub enum Probe {
    /// The service answered. `success` tells whether the status is one of
    /// success; `status` is the status line as it is shown to people.
    Answered { success: bool, status: String },
    /// No answer could be had.
    Unreachable,
}

/// A `Probe` with its status taken as a sequence of characters.
pub enum ProbeView {
    Answered { success: bool, status: Seq<char> },
    Unreachable,
}

impl View for Probe {
    type V = ProbeView;

    open spec fn view(&self) -> ProbeView {
        match *self {
            Probe::Answered { success, status } => ProbeView::Answered { success, status: status@ },
            Probe::Unreachable => ProbeView::Unreachable,
        }
    }
}

/// What an availability monitor reports for `url`: nothing on an answer of
/// success, the status on any other answer, and a failure to connect where
/// there was no answer.
pub open spec fn availability_spec(url: Seq<char>, probe: ProbeView) -> ActionView {
    match probe {
        ProbeView::Answered { success, status } => if success {
            ActionView::Nothing
        } else {
            ActionView::Notify { diagnostic: Some("Failed to get "@ + url + " - "@ + status) }
        },
        ProbeView::Unreachable => ActionView::Notify {
            diagnostic: Some("Failed to connect to "@ + url),
        },
    }
}

/// The report of an availability monitor for `url`, given what came of the
/// request.
pub fn availability_action(url: &str, probe: Probe) -> (action: Action)
    ensures
        action@ == availability_spec(url@, probe@),
{
    match probe {
        Probe::Answered { success, status } => if success {
            Action::Nothing
        } else {
            let text = String::from_str("Failed to get ").concat(url).concat(" - ").concat(
                status.as_str(),
            );
            Action::Notify { diagnostic: Some(text) }
        },
        Probe::Unreachable => Action::Notify {
            diagnostic: Some(String::from_str("Failed to connect to ").concat(url)),
        },
    }
}

} // verus!
