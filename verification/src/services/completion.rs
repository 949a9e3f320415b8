//! The two ends of one exchange with the completion service: building the
//! request and picking the invocation out of the response. Sending and
//! receiving is the caller's business.

use vstd::prelude::*;
use vstd::string::StringExecFns;
use crate::conversation::Conversation;
use crate::error::AgentError;
use crate::helpers::ai_tools::{COMMAND_LINE, FUNCTION, catalog, get_tools};
use crate::helpers::config::Config;
use crate::models::openai_request::{
    Function, MessageView, OpenAIRequest, OpenAIRequestView, ToolChoice, ToolChoiceView,
};
use crate::models::openai_response::{OpenAIResponse, ToolFunction, ToolFunctionView};

verus! {

/// The request that presents `conversation` to the model `model`: the whole
/// conversation, the catalog of tools, and the instruction to answer with an
/// invocation of the tool that runs commands.
pub open spec fn request_for(model: Seq<char>, conversation: Seq<MessageView>) -> OpenAIRequestView {
    OpenAIRequestView {
        model,
        messages: conversation,
        tools: catalog(),
        tool_choice: ToolChoiceView { tool_type: FUNCTION@, name: COMMAND_LINE@ },
    }
}

/// Builds the request for the next command.
pub fn build_request(conversation: &Conversation, config: &Config) -> (request: OpenAIRequest)
    ensures
        request@ == request_for(config.model@, conversation@),
{
    OpenAIRequest {
        model: config.model.clone(),
        messages: conversation.snapshot(),
        tools: get_tools(),
        tool_choice: ToolChoice {
            tool_type: String::from_str(FUNCTION),
            function: Function { name: String::from_str(COMMAND_LINE) },
        },
    }
}

/// The invocation that a response stands for: the first invocation of its
/// first choice. A response without choices, and a first choice without
/// invocations, are failures.
pub open spec fn selected(response: OpenAIResponse) -> Result<ToolFunctionView, AgentError> {
    if response.choices@.len() == 0 {
        Err(AgentError::NoChoice)
    } else {
        match response.choices@[0].message.tool_calls {
            Some(calls) => if calls@.len() == 0 {
                Err(AgentError::NoInvocation)
            } else {
                Ok(calls@[0].function@)
            },
            None => Err(AgentError::NoInvocation),
        }
    }
}

/// The number of invocations that the first choice of `response` carries.
pub open spec fn invocation_count(response: OpenAIResponse) -> nat {
    if response.choices@.len() == 0 {
        0
    } else {
        match response.choices@[0].message.tool_calls {
            Some(calls) => calls@.len(),
            None => 0,
        }
    }
}

/// The invocation picked out of a response, and what was passed over.
#[derive(Debug, PartialEq, Eq)]
pub struct Selection {
    pub invocation: ToolFunction,
    /// The response held more than one choice; the first was taken.
    pub other_choices: bool,
    /// The choice held more than one invocation; the first was taken.
    pub other_invocations: bool,
}

/// Picks the invocation to act on.
///
/// More than one choice, or more than one invocation, is a deviation that
/// is reported in the selection, not a failure.
pub fn select_invocation(response: &OpenAIResponse) -> (selection: Result<Selection, AgentError>)
    ensures
        match selection {
            Ok(s) => {
                &&& selected(*response) == Ok::<ToolFunctionView, AgentError>(s.invocation@)
                &&& s.other_choices == (response.choices@.len() > 1)
                &&& s.other_invocations == (invocation_count(*response) > 1)
            },
            Err(error) => selected(*response) == Err::<ToolFunctionView, AgentError>(error),
        },
{
    if response.choices.len() == 0 {
        return Err(AgentError::NoChoice);
    }
    match &response.choices[0].message.tool_calls {
        Some(calls) => {
            if calls.len() == 0 {
                Err(AgentError::NoInvocation)
            } else {
                Ok(
                    Selection {
                        invocation: calls[0].function.clone(),
                        other_choices: response.choices.len() > 1,
                        other_invocations: calls.len() > 1,
                    },
                )
            }
        },
        None => Err(AgentError::NoInvocation),
    }
}

} // verus!
