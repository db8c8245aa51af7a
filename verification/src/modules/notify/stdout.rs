use vstd::prelude::*;
use vstd::string::*;
use std::io::Write;
use crate::monitor::text_of;
use crate::notify::Notify;

verus! {

/// `std::io::Stdout`, the handle of the process's standard output.
#[verifier::external_type_specification]
#[verifier::external_body]
pub struct ExStdout(std::io::Stdout);

/// `std::io::stdout`: the handle of the process's standard output.
pub assume_specification[ std::io::stdout ]() -> (out: std::io::Stdout);

/// `Write::write_fmt` on standard output: writes `line` and a line break,
/// and tells whether all of it was written. Nothing is promised of the answer.
#[verifier::external_body]
fn write_line(out: &mut std::io::Stdout, line: &str) -> (written: bool) {
    writeln!(out, "{}", line).is_ok()
}

/// The line that is printed for a message: the message alone, or the
/// message, a colon and a space, and the diagnostic.
pub open spec fn line_spec(msg: Seq<char>, diagnostic: Option<Seq<char>>) -> Seq<char> {
    match diagnostic {
        Some(detail) => msg + ": "@ + detail,
        None => msg,
    }
}

/// Prints every notification on standard output.
#[derive(Default)]
pub struct Stdout;

impl Stdout {
    /// The line that `send` prints for a message and its diagnostic.
    pub fn line(msg: &str, diagnostic: Option<String>) -> (line: String)
        ensures
            line@ == line_spec(msg@, text_of(diagnostic)),
    {
        match diagnostic {
            Some(detail) => String::from_str(msg).concat(": ").concat(detail.as_str()),
            None => String::from_str(msg),
        }
    }
}

impl Notify for Stdout {
    /// Prints the line for the message. Delivery fails only where standard
    /// output takes no more, and the reason then says so.
    fn send(&self, msg: &str, diagnostic: Option<String>) -> (sent: Result<(), String>)
        ensures
            sent matches Err(reason) ==> reason@ == write_failure(),
    {
        let line = Stdout::line(msg, diagnostic);
        let mut out = std::io::stdout();
        let written = write_line(&mut out, line.as_str());
        Stdout::answer(written)
    }
}

/// The reason reported when a line could not be written.
pub open spec fn write_failure() -> Seq<char> {
    "Failed to write to standard output"@
}

impl Stdout {
    /// What `send` answers once its line was, or was not, written.
    pub fn answer(written: bool) -> (sent: Result<(), String>)
        ensures
            match sent {
                Ok(_) => written,
                Err(reason) => !written && reason@ == write_failure(),
            },
    {
        if written {
            Ok(())
        } else {
            Err(String::from_str("Failed to write to standard output"))
        }
    }
}

} // verus!
