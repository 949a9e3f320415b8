//! Finding the command that an invocation asks to run.

use vstd::prelude::*;
use vstd::string::StringExecFns;
use crate::error::AgentError;
use crate::helpers::ai_tools::COMMAND_LINE;
use crate::models::openai_response::{ToolCall, ToolFunctionView};
use crate::services::tool_arguments::{ParsedCommand, ParsedCommandView, decode, decode_spec};

verus! {

/// The command that `invocation` asks to run: the invocation must name the
/// tool that runs commands and its arguments must decode to a command.
pub open spec fn requested_command(invocation: ToolFunctionView) -> Result<Seq<char>, AgentError> {
    if invocation.name == COMMAND_LINE@ {
        match decode_spec(invocation.arguments) {
            ParsedCommandView::RunCommand { command } => Ok(command),
            _ => Err(AgentError::Decode),
        }
    } else {
        Err(AgentError::UnsupportedTool)
    }
}

/// A result that holds text, as a mathematical value.
pub open spec fn text_result(result: Result<String, AgentError>) -> Result<Seq<char>, AgentError> {
    match result {
        Ok(text) => Ok(text@),
        Err(error) => Err(error),
    }
}

/// Gives the command that `tool_call` asks to run, for the caller to execute.
///
/// Fails with `UnsupportedTool` when the call names another tool, and with
/// `Decode` when its arguments hold no command.
pub fn handle_function(tool_call: &ToolCall) -> (command: Result<String, AgentError>)
    ensures
        text_result(command) == requested_command(tool_call.function@),
{
    if tool_call.function.name == String::from_str(COMMAND_LINE) {
        match decode(tool_call.function.arguments.as_str()) {
            ParsedCommand::RunCommand { command } => Ok(command),
            _ => Err(AgentError::Decode),
        }
    } else {
        Err(AgentError::UnsupportedTool)
    }
}

} // verus!
