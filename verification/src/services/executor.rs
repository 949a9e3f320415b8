//! Turning what a finished command left behind into text for the model.
//!
//! Spawning the shell is the caller's business. It hands over the exit
//! status and the bytes captured from the two output streams.

use vstd::prelude::*;
use vstd::utf8::{decode_utf8, valid_utf8};
use crate::error::AgentError;

verus! {

/// What a finished command left behind, before any interpretation.
#[derive(Debug, PartialEq, Eq)]
pub struct RawOutput {
    /// Whether the command exited with status zero.
    pub succeeded: bool,
    pub stdout: Vec<u8>,
    pub stderr: Vec<u8>,
}

/// The outcome of a command. A nonzero exit status is an outcome like any
/// other, not an error.
#[derive(Debug, PartialEq, Eq)]
pub struct CommandResult {
    pub stdout: String,
    pub stderr: String,
    pub succeeded: bool,
}

/// The outcome of a command as a mathematical value.
pub struct CommandResultView {
    pub stdout: Seq<char>,
    pub stderr: Seq<char>,
    pub succeeded: bool,
}

impl View for CommandResult {
    type V = CommandResultView;

    open spec fn view(&self) -> CommandResultView {
        CommandResultView {
            stdout: self.stdout@,
            stderr: self.stderr@,
            succeeded: self.succeeded,
        }
    }
}

/// The stream that the model gets to read: standard output of a command that
/// succeeded, standard error of one that failed.
pub open spec fn output_text(result: CommandResultView) -> Seq<char> {
    if result.succeeded {
        result.stdout
    } else {
        result.stderr
    }
}

/// The outcome that `succeeded`, `stdout` and `stderr` stand for, where both
/// streams are valid UTF-8.
pub open spec fn interpreted(succeeded: bool, stdout: Seq<u8>, stderr: Seq<u8>) -> Result<
    CommandResultView,
    AgentError,
> {
    if valid_utf8(stdout) && valid_utf8(stderr) {
        Ok(
            CommandResultView {
                stdout: decode_utf8(stdout),
                stderr: decode_utf8(stderr),
                succeeded,
            },
        )
    } else {
        Err(AgentError::ExecutorSpawn)
    }
}

/// A result that holds an outcome, as a mathematical value.
pub open spec fn outcome_view(result: Result<CommandResult, AgentError>) -> Result<
    CommandResultView,
    AgentError,
> {
    match result {
        Ok(outcome) => Ok(outcome@),
        Err(error) => Err(error),
    }
}

/// `String::from_utf8`, with its error dropped.
///
/// Trusted: the bytes are accepted exactly when they are valid UTF-8, and
/// the text is then the one that they encode.
#[verifier::external_body]
fn text_from_utf8(bytes: Vec<u8>) -> (text: Option<String>)
    ensures
        match text {
            Some(t) => valid_utf8(bytes@) && t@ == decode_utf8(bytes@),
            None => !valid_utf8(bytes@),
        },
{
    String::from_utf8(bytes).ok()
}

/// Reads the two captured streams as text.
///
/// Fails with `ExecutorSpawn` exactly when one of the streams is not valid
/// UTF-8. The exit status never makes it fail.
pub fn command_result(output: RawOutput) -> (result: Result<CommandResult, AgentError>)
    ensures
        outcome_view(result) == interpreted(output.succeeded, output.stdout@, output.stderr@),
{
    let succeeded = output.succeeded;
    match text_from_utf8(output.stdout) {
        Some(stdout) => match text_from_utf8(output.stderr) {
            Some(stderr) => Ok(CommandResult { stdout, stderr, succeeded }),
            None => Err(AgentError::ExecutorSpawn),
        },
        None => Err(AgentError::ExecutorSpawn),
    }
}

impl CommandResult {
    /// The stream that the model gets to read.
    pub fn output(&self) -> (text: &str)
        ensures
            text@ == output_text(self@),
    {
        if self.succeeded {
            self.stdout.as_str()
        } else {
            self.stderr.as_str()
        }
    }
}

} // verus!
