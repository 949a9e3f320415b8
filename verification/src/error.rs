//! The ways in which a run can fail.

use vstd::prelude::*;
use vstd::string::StringExecFns;

verus! {

/// Why a run stopped without reaching its goal.
///
/// A command that exits with a nonzero status is not among these: its output
/// is handed back to the model like any other.
#[derive(Clone, Copy, Debug, PartialEq, Eq, Structural)]
pub enum AgentError {
    /// The persisted configuration could not be loaded.
    ConfigLoad,
    /// The completion service could not be reached.
    Transport,
    /// The completion service answered with something other than the expected shape.
    Protocol,
    /// The response held no choice at all.
    NoChoice,
    /// The chosen choice carried no tool invocation.
    NoInvocation,
    /// The arguments of the invocation name neither a command nor a completion message.
    Decode,
    /// The invocation names a tool other than the one that runs commands.
    UnsupportedTool,
    /// The executor could not spawn a shell or could not read its output as text.
    ExecutorSpawn,
}

/// The diagnostic shown to the operator for each kind of failure.
pub open spec fn error_message(error: AgentError) -> Seq<char> {
    match error {
        AgentError::ConfigLoad => "Failed to load config"@,
        AgentError::Transport => "The completion service could not be reached"@,
        AgentError::Protocol => "The completion response has an unexpected shape"@,
        AgentError::NoChoice => "No choices available."@,
        AgentError::NoInvocation => "No tool calls for this choice."@,
        AgentError::Decode => "Command not found"@,
        AgentError::UnsupportedTool => "Tool call is not 'command_line'"@,
        AgentError::ExecutorSpawn => "The command could not be executed"@,
    }
}

impl AgentError {
    /// The diagnostic for this failure, as text.
    pub fn message(&self) -> (text: String)
        ensures
            text@ == error_message(*self),
    {
        match self {
            AgentError::ConfigLoad => String::from_str("Failed to load config"),
            AgentError::Transport => String::from_str(
                "The completion service could not be reached",
            ),
            AgentError::Protocol => String::from_str(
                "The completion response has an unexpected shape",
            ),
            AgentError::NoChoice => String::from_str("No choices available."),
            AgentError::NoInvocation => String::from_str("No tool calls for this choice."),
            AgentError::Decode => String::from_str("Command not found"),
            AgentError::UnsupportedTool => String::from_str("Tool call is not 'command_line'"),
            AgentError::ExecutorSpawn => String::from_str("The command could not be executed"),
        }
    }
}

} // verus!
