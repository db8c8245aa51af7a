use vstd::prelude::*;
use vstd::string::*;
use crate::monitor::text_of;

verus! {

/// The stage at which sending a mail can fail.
#[derive(Clone, Copy, PartialEq, Eq, Structural, Debug)]
pub enum MailStage {
    /// The message could not be put together.
    Build,
    /// The relay could not be set up.
    Relay,
    /// The relay did not take the message.
    Send,
}

/// The body of a mail: the diagnostic where there is one, else the message,
/// which is also the subject.
pub fn mail_body(msg: &str, diagnostic: Option<String>) -> (body: String)
    ensures
        body@ == match text_of(diagnostic) {
            Some(detail) => detail,
            None => msg@,
        },
{
    match diagnostic {
        Some(detail) => detail,
        None => String::from_str(msg),
    }
}

/// The reason reported when a mail fails at `stage` with `reason`.
pub open spec fn failure_spec(stage: MailStage, reason: Seq<char>) -> Seq<char> {
    match stage {
        MailStage::Build => "Failed to build a message: "@ + reason,
        MailStage::Relay => "Failed to create a mailer: "@ + reason,
        MailStage::Send => "Failed to send email: "@ + reason,
    }
}

/// The reason reported when a mail fails at `stage` with `reason`.
pub fn failure_text(stage: MailStage, reason: &str) -> (text: String)
    ensures
        text@ == failure_spec(stage, reason@),
{
    match stage {
        MailStage::Build => String::from_str("Failed to build a message: ").concat(reason),
        MailStage::Relay => String::from_str("Failed to create a mailer: ").concat(reason),
        MailStage::Send => String::from_str("Failed to send email: ").concat(reason),
    }
}

} // verus!
