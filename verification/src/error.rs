//! The error a run ends with.

use vstd::prelude::*;
use vstd::string::*;
use crate::nvml::error::NvmlError;

verus! {

/// A failure attributed to one part of the program.
///
/// An error whose `printed` mark is set has already been shown to the user
/// where it arose. It is not shown again, yet the run still counts as failed.
#[derive(Debug, PartialEq, Eq)]
pub struct AppError {
    /// Part of the program the failure belongs to.
    pub domain: &'static str,
    /// The vendor failure behind it, if there is one.
    pub source: Option<NvmlError>,
    /// A message of its own, for a failure without a vendor cause.
    pub message: Option<String>,
    /// Whether the failure has been shown already.
    pub printed: bool,
}

impl AppError {
    /// A vendor failure attributed to `domain`.
    pub fn new(domain: &'static str, source: NvmlError) -> (error: Self)
        ensures
            error == (AppError { domain, source: Some(source), message: None, printed: false }),
    {
        Self { domain, source: Some(source), message: None, printed: false }
    }

    /// A failure of `domain` described by `message`.
    pub fn msg(domain: &'static str, message: String) -> (error: Self)
        ensures
            error == (AppError { domain, source: None, message: Some(message), printed: false }),
    {
        Self { domain, source: None, message: Some(message), printed: false }
    }

    /// A failure of `domain` that was shown where it arose.
    pub fn printed(domain: &'static str) -> (error: Self)
        ensures
            error == (AppError { domain, source: None, message: None, printed: true }),
    {
        Self { domain, source: None, message: None, printed: true }
    }

    /// The line that shows this error: the domain in brackets, then the
    /// remedy or terse message of the vendor failure if there is one, else the
    /// error's own message if it has one.
    pub open spec fn line(self) -> Seq<char> {
        let head = "error["@ + self.domain@ + "]"@;
        match self.source {
            Some(source) => head + ": "@ + source.actionable_text(),
            None => match self.message {
                Some(message) => head + ": "@ + message@,
                None => head,
            },
        }
    }

    /// The line to show for this error.
    pub fn describe(&self) -> (line: String)
        ensures
            line@ == self.line(),
    {
        let mut line = String::from_str("error[");
        line.append(self.domain);
        line.append("]");
        match &self.source {
            Some(source) => {
                line.append(": ");
                line.append(source.actionable_message());
            },
            None => match &self.message {
                Some(message) => {
                    line.append(": ");
                    line.append(message.as_str());
                },
                None => {},
            },
        }
        line
    }

    /// What the top-level handler prints for this error: its line, unless the
    /// error was shown already.
    pub fn report(&self) -> (shown: Option<String>)
        ensures
            self.printed ==> shown is None,
            !self.printed ==> shown is Some && shown->Some_0@ == self.line(),
    {
        if self.printed {
            None
        } else {
            Some(self.describe())
        }
    }
}

/// The status the process exits with: zero after a run that succeeded,
/// one after any failure, shown already or not.
pub fn exit_status(outcome: &Result<(), AppError>) -> (status: i32)
    ensures
        status == (if outcome is Ok { 0i32 } else { 1i32 }),
{
    match outcome {
        Ok(_) => 0,
        Err(_) => 1,
    }
}

} // verus!
