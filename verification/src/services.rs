//! What the agent does with an invocation: reading its arguments, finding
//! the command to run and turning the outcome of the run into text.

pub mod completion;
pub mod executor;
pub mod handle_function;
pub mod tool_arguments;
