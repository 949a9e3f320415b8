//! What is sent to the completion service: the conversation so far, the tools
//! the model may invoke and the tool it is made to choose.

use vstd::prelude::*;

verus! {

/// Who a message is attributed to.
#[derive(Clone, Copy, Debug, PartialEq, Eq, Structural)]
pub enum Role {
    System,
    User,
    Assistant,
}

/// The name under which the completion service knows a role.
pub open spec fn role_name(role: Role) -> Seq<char> {
    match role {
        Role::System => "system"@,
        Role::User => "user"@,
        Role::Assistant => "assistant"@,
    }
}

impl Role {
    /// The name under which the completion service knows this role.
    pub fn as_str(&self) -> (name: &'static str)
        ensures
            name@ == role_name(*self),
    {
        match self {
            Role::System => "system",
            Role::User => "user",
            Role::Assistant => "assistant",
        }
    }
}

/// One entry of a conversation.
#[derive(Debug, PartialEq, Eq)]
pub struct Message {
    pub role: Role,
    pub content: String,
}

/// A message as a mathematical value.
pub struct MessageView {
    pub role: Role,
    pub content: Seq<char>,
}

impl View for Message {
    type V = MessageView;

    open spec fn view(&self) -> MessageView {
        MessageView { role: self.role, content: self.content@ }
    }
}

impl Clone for Message {
    fn clone(&self) -> (copy: Self)
        ensures
            copy == *self,
    {
        Message { role: self.role, content: self.content.clone() }
    }
}

/// The messages of `messages`, each as a mathematical value.
pub open spec fn messages_view(messages: Seq<Message>) -> Seq<MessageView> {
    messages.map_values(|m: Message| m@)
}

/// One named argument that a tool accepts.
#[derive(Debug, PartialEq, Eq)]
pub struct Property {
    pub name: String,
    pub value_type: String,
    pub description: String,
}

pub struct PropertyView {
    pub name: Seq<char>,
    pub value_type: Seq<char>,
    pub description: Seq<char>,
}

impl View for Property {
    type V = PropertyView;

    open spec fn view(&self) -> PropertyView {
        PropertyView {
            name: self.name@,
            value_type: self.value_type@,
            description: self.description@,
        }
    }
}

/// The arguments that a tool accepts, and which of them must be given.
#[derive(Debug, PartialEq, Eq)]
pub struct Parameters {
    pub param_type: String,
    pub properties: Vec<Property>,
    pub required: Vec<String>,
}

pub struct ParametersView {
    pub param_type: Seq<char>,
    pub properties: Seq<PropertyView>,
    pub required: Seq<Seq<char>>,
}

impl View for Parameters {
    type V = ParametersView;

    open spec fn view(&self) -> ParametersView {
        ParametersView {
            param_type: self.param_type@,
            properties: self.properties@.map_values(|p: Property| p@),
            required: self.required@.map_values(|s: String| s@),
        }
    }
}

/// The description of a tool as the model sees it.
#[derive(Debug, PartialEq, Eq)]
pub struct ToolFunction {
    pub name: String,
    pub description: String,
    pub parameters: Parameters,
}

pub struct ToolFunctionView {
    pub name: Seq<char>,
    pub description: Seq<char>,
    pub parameters: ParametersView,
}

impl View for ToolFunction {
    type V = ToolFunctionView;

    open spec fn view(&self) -> ToolFunctionView {
        ToolFunctionView {
            name: self.name@,
            description: self.description@,
            parameters: self.parameters@,
        }
    }
}

/// One entry of the catalog of tools advertised to the model.
#[derive(Debug, PartialEq, Eq)]
pub struct Tool {
    pub tool_type: String,
    pub function: ToolFunction,
}

pub struct ToolView {
    pub tool_type: Seq<char>,
    pub function: ToolFunctionView,
}

impl View for Tool {
    type V = ToolView;

    open spec fn view(&self) -> ToolView {
        ToolView { tool_type: self.tool_type@, function: self.function@ }
    }
}

/// The tools of `tools`, each as a mathematical value.
pub open spec fn tools_view(tools: Seq<Tool>) -> Seq<ToolView> {
    tools.map_values(|t: Tool| t@)
}

/// The name of the tool that the model is made to choose.
#[derive(Debug, PartialEq, Eq)]
pub struct Function {
    pub name: String,
}

/// The instruction that the model must answer with an invocation of one given tool.
#[derive(Debug, PartialEq, Eq)]
pub struct ToolChoice {
    pub tool_type: String,
    pub function: Function,
}

pub struct ToolChoiceView {
    pub tool_type: Seq<char>,
    pub name: Seq<char>,
}

impl View for ToolChoice {
    type V = ToolChoiceView;

    open spec fn view(&self) -> ToolChoiceView {
        ToolChoiceView { tool_type: self.tool_type@, name: self.function.name@ }
    }
}

/// One request to the completion service.
#[derive(Debug, PartialEq, Eq)]
pub struct OpenAIRequest {
    pub model: String,
    pub messages: Vec<Message>,
    pub tools: Vec<Tool>,
    pub tool_choice: ToolChoice,
}

pub struct OpenAIRequestView {
    pub model: Seq<char>,
    pub messages: Seq<MessageView>,
    pub tools: Seq<ToolView>,
    pub tool_choice: ToolChoiceView,
}

impl View for OpenAIRequest {
    type V = OpenAIRequestView;

    open spec fn view(&self) -> OpenAIRequestView {
        OpenAIRequestView {
            model: self.model@,
            messages: messages_view(self.messages@),
            tools: tools_view(self.tools@),
            tool_choice: self.tool_choice@,
        }
    }
}

} // verus!
