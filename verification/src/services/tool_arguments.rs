//! Reading the arguments of a tool invocation.
//!
//! The arguments arrive as the text of a JSON document. Parsing is done by
//! `serde_json`; which member means what is decided here.

use vstd::prelude::*;
use crate::helpers::ai_tools::{COMMAND, FINISHED_WORKING};

verus! {

/// `serde_json::Value`, a parsed JSON document. Nothing inside it is visible
/// to the proofs; what they know of one is its `text_members`.
#[verifier::external_type_specification]
#[verifier::external_body]
pub struct ExJsonValue(serde_json::Value);

/// `serde_json::Error`, the reason why a text is not a JSON document. It is
/// only ever told apart from success.
#[verifier::external_type_specification]
#[verifier::external_body]
pub struct ExJsonError(serde_json::Error);

/// The text members of a JSON value: for an object, its members whose value
/// is a JSON string, each key with that string; for any other value, none.
pub uninterp spec fn text_members(value: serde_json::Value) -> Map<Seq<char>, Seq<char>>;

/// What parsing `text` as a single JSON document gives: `None` where the
/// text is not one JSON document, else the text members of the parsed value.
pub uninterp spec fn parsed_text_members(text: Seq<char>) -> Option<Map<Seq<char>, Seq<char>>>;

/// `serde_json::from_str` at the type `serde_json::Value`.
///
/// Trusted: the outcome depends on the text alone; it is `parsed_text_members`
/// of the text, an error standing for `None`.
#[verifier::external_body]
fn parse_json(text: &str) -> (parsed: Result<serde_json::Value, serde_json::Error>)
    ensures
        match parsed {
            Ok(value) => parsed_text_members(text@) == Some(text_members(value)),
            Err(_) => parsed_text_members(text@) is None,
        },
{
    serde_json::from_str::<serde_json::Value>(text)
}

/// `serde_json::Value::get` with a text key, followed by `Value::as_str` on
/// the member found.
///
/// Trusted: the result is the text of the member `key` where `value` is an
/// object that has such a member and the member is a JSON string, and `None`
/// in every other case.
#[verifier::external_body]
fn text_member(value: &serde_json::Value, key: &str) -> (member: Option<String>)
    ensures
        match member {
            Some(text) => text_members(*value).contains_key(key@) && text_members(*value)[key@]
                == text@,
            None => !text_members(*value).contains_key(key@),
        },
{
    Some(value.get(key)?.as_str()?.to_owned())
}

/// What the model asks for with one invocation.
#[derive(Debug, PartialEq, Eq)]
pub enum ParsedCommand {
    /// Run this command.
    RunCommand { command: String },
    /// The goal is reached; this is the closing message for the operator.
    FinishSignal { message: String },
    /// The arguments name neither a command nor a closing message.
    Malformed,
}

/// A parsed command as a mathematical value.
pub enum ParsedCommandView {
    RunCommand { command: Seq<char> },
    FinishSignal { message: Seq<char> },
    Malformed,
}

impl View for ParsedCommand {
    type V = ParsedCommandView;

    open spec fn view(&self) -> ParsedCommandView {
        match self {
            ParsedCommand::RunCommand { command } => ParsedCommandView::RunCommand {
                command: command@,
            },
            ParsedCommand::FinishSignal { message } => ParsedCommandView::FinishSignal {
                message: message@,
            },
            ParsedCommand::Malformed => ParsedCommandView::Malformed,
        }
    }
}

/// An optional text as a mathematical value.
pub open spec fn text_of(text: Option<String>) -> Option<Seq<char>> {
    match text {
        Some(t) => Some(t@),
        None => None,
    }
}

/// The member `key` of `members`, if there is one.
pub open spec fn member(members: Map<Seq<char>, Seq<char>>, key: Seq<char>) -> Option<Seq<char>> {
    if members.contains_key(key) {
        Some(members[key])
    } else {
        None
    }
}

/// The meaning of an invocation, given its `command` and `finished_working`
/// arguments: a command wins over a closing message, and with neither the
/// invocation is malformed.
pub open spec fn classify_spec(
    command: Option<Seq<char>>,
    finished_working: Option<Seq<char>>,
) -> ParsedCommandView {
    match command {
        Some(command) => ParsedCommandView::RunCommand { command },
        None => match finished_working {
            Some(message) => ParsedCommandView::FinishSignal { message },
            None => ParsedCommandView::Malformed,
        },
    }
}

/// The meaning of the arguments text `raw_arguments`.
pub open spec fn decode_spec(raw_arguments: Seq<char>) -> ParsedCommandView {
    match parsed_text_members(raw_arguments) {
        Some(members) => classify_spec(
            member(members, COMMAND@),
            member(members, FINISHED_WORKING@),
        ),
        None => ParsedCommandView::Malformed,
    }
}

/// Decides what an invocation means from its two text arguments.
pub fn classify(command: Option<String>, finished_working: Option<String>) -> (parsed:
    ParsedCommand)
    ensures
        parsed@ == classify_spec(text_of(command), text_of(finished_working)),
{
    match command {
        Some(command) => ParsedCommand::RunCommand { command },
        None => match finished_working {
            Some(message) => ParsedCommand::FinishSignal { message },
            None => ParsedCommand::Malformed,
        },
    }
}

/// Decodes the arguments of an invocation.
///
/// Text that is not a JSON document, or that holds neither argument as text,
/// is reported as `Malformed`; no input makes this function fail.
pub fn decode(raw_arguments: &str) -> (parsed: ParsedCommand)
    ensures
        parsed@ == decode_spec(raw_arguments@),
        parsed_text_members(raw_arguments@) is None ==> parsed is Malformed,
{
    match parse_json(raw_arguments) {
        Ok(value) => {
            let command = text_member(&value, COMMAND);
            let finished_working = text_member(&value, FINISHED_WORKING);
            classify(command, finished_working)
        },
        Err(_) => ParsedCommand::Malformed,
    }
}

/// Decoding is a function of the arguments text: two results for the same
/// text are the same value.
pub proof fn lemma_decode_repeatable(
    raw_arguments: Seq<char>,
    first: ParsedCommand,
    second: ParsedCommand,
)
    ensures
        first@ == decode_spec(raw_arguments) && second@ == decode_spec(raw_arguments) ==> first@
            == second@,
{
}

/// Arguments that are not a JSON document decode to `Malformed`, and so do
/// those of a document that holds neither a command nor a closing message
/// as text.
pub proof fn lemma_malformed_arguments(raw_arguments: Seq<char>)
    ensures
        parsed_text_members(raw_arguments) is None ==> decode_spec(raw_arguments) is Malformed,
        parsed_text_members(raw_arguments) matches Some(members) ==> (decode_spec(raw_arguments)
            is Malformed <==> !members.contains_key(COMMAND@) && !members.contains_key(
            FINISHED_WORKING@,
        )),
{
}

} // verus!
