mod email;
mod stdout;

pub use email::{failure_spec, failure_text, mail_body, MailStage};
pub use stdout::{line_spec, write_failure, Stdout};
