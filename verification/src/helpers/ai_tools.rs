//! The catalog of tools advertised to the model.
//!
//! The catalog holds a single tool, the one that runs a command. The model
//! signals completion through the optional `finished_working` argument of
//! that same tool, not through a tool of its own.

use vstd::prelude::*;
use vstd::string::StringExecFns;
use crate::models::openai_request::{
    Parameters, ParametersView, Property, PropertyView, Tool, ToolFunction, ToolFunctionView,
    ToolView, tools_view,
};

verus! {

/// The name of the tool that runs a command.
pub const COMMAND_LINE: &'static str = "command_line";

/// The argument that carries the command to run.
pub const COMMAND: &'static str = "command";

/// The argument that carries the closing message once the goal is reached.
pub const FINISHED_WORKING: &'static str = "finished_working";

/// The kind of every tool of the catalog.
pub const FUNCTION: &'static str = "function";

pub const COMMAND_LINE_DESCRIPTION: &'static str =
    "Runs a command in the Ubuntu command line. The response of the command will be available for you to analyze.";

pub const COMMAND_DESCRIPTION: &'static str = "The raw command you want to run in the cli";

pub const FINISHED_WORKING_DESCRIPTION: &'static str =
    "Run this when you have fully completed your goal. Be careful as you can only run this once as it stops interactions of your work to let the User know your task is fully completed. The final message you want to give to the user. Discussing your completed work and any information the User may need to know about such as problems encountered, or documentation.";

/// The description of a text argument.
pub open spec fn text_property(name: Seq<char>, description: Seq<char>) -> PropertyView {
    PropertyView { name, value_type: "string"@, description }
}

/// The one tool of the catalog: it takes a required `command` and an
/// optional `finished_working`, both text.
pub open spec fn command_line_tool() -> ToolView {
    ToolView {
        tool_type: FUNCTION@,
        function: ToolFunctionView {
            name: COMMAND_LINE@,
            description: COMMAND_LINE_DESCRIPTION@,
            parameters: ParametersView {
                param_type: "object"@,
                properties: seq![
                    text_property(COMMAND@, COMMAND_DESCRIPTION@),
                    text_property(FINISHED_WORKING@, FINISHED_WORKING_DESCRIPTION@),
                ],
                required: seq![COMMAND@],
            },
        },
    }
}

/// The catalog of tools as a mathematical value.
pub open spec fn catalog() -> Seq<ToolView> {
    seq![command_line_tool()]
}

fn make_text_property(name: &str, description: &str) -> (property: Property)
    ensures
        property@ == text_property(name@, description@),
{
    Property {
        name: String::from_str(name),
        value_type: String::from_str("string"),
        description: String::from_str(description),
    }
}

/// The tools that the model may invoke.
pub fn get_tools() -> (tools: Vec<Tool>)
    ensures
        tools_view(tools@) == catalog(),
{
    let mut properties: Vec<Property> = Vec::new();
    properties.push(make_text_property(COMMAND, COMMAND_DESCRIPTION));
    properties.push(make_text_property(FINISHED_WORKING, FINISHED_WORKING_DESCRIPTION));
    let mut required: Vec<String> = Vec::new();
    required.push(String::from_str(COMMAND));
    let tool = Tool {
        tool_type: String::from_str(FUNCTION),
        function: ToolFunction {
            name: String::from_str(COMMAND_LINE),
            description: String::from_str(COMMAND_LINE_DESCRIPTION),
            parameters: Parameters {
                param_type: String::from_str("object"),
                properties,
                required,
            },
        },
    };
    assert(tool@.function.parameters.properties =~= command_line_tool().function.parameters.properties);
    assert(tool@.function.parameters.required =~= command_line_tool().function.parameters.required);
    let mut tools: Vec<Tool> = Vec::new();
    tools.push(tool);
    assert(tools_view(tools@) =~= catalog());
    tools
}

} // verus!
