//! What the completion service answers.

use vstd::prelude::*;

verus! {

/// The accounting of tokens that comes with a response.
#[derive(Clone, Copy, Debug, PartialEq, Eq, Structural)]
pub struct Usage {
    pub prompt_tokens: i32,
    pub completion_tokens: i32,
    pub total_tokens: i32,
}

/// The tool that the model invokes, with its arguments as serialized text.
#[derive(Debug, PartialEq, Eq)]
pub struct ToolFunction {
    pub name: String,
    pub arguments: String,
}

/// An invocation as a mathematical value.
pub struct ToolFunctionView {
    pub name: Seq<char>,
    pub arguments: Seq<char>,
}

impl View for ToolFunction {
    type V = ToolFunctionView;

    open spec fn view(&self) -> ToolFunctionView {
        ToolFunctionView { name: self.name@, arguments: self.arguments@ }
    }
}

impl Clone for ToolFunction {
    fn clone(&self) -> (copy: Self)
        ensures
            copy == *self,
    {
        ToolFunction { name: self.name.clone(), arguments: self.arguments.clone() }
    }
}

/// One tool invocation of a response.
#[derive(Debug, PartialEq, Eq)]
pub struct ToolCall {
    pub id: String,
    pub tool_type: String,
    pub function: ToolFunction,
}

/// The message of one choice.
#[derive(Debug, PartialEq, Eq)]
pub struct Message {
    pub role: String,
    pub content: Option<String>,
    pub tool_calls: Option<Vec<ToolCall>>,
}

/// One alternative answer of the model.
#[derive(Debug, PartialEq, Eq)]
pub struct Choice {
    pub index: i32,
    pub message: Message,
    pub finish_reason: String,
}

/// A whole response of the completion service.
#[derive(Debug, PartialEq, Eq)]
pub struct OpenAIResponse {
    pub id: String,
    pub object: String,
    pub created: i64,
    pub model: String,
    pub choices: Vec<Choice>,
    pub usage: Usage,
    pub system_fingerprint: String,
}

} // verus!
