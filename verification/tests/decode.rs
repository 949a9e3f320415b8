use command_agent::services::tool_arguments::{classify, decode, ParsedCommand};

fn run(command: &str) -> ParsedCommand {
    ParsedCommand::RunCommand { command: command.to_string() }
}

fn finish(message: &str) -> ParsedCommand {
    ParsedCommand::FinishSignal { message: message.to_string() }
}

#[test]
fn decode_reads_a_command() {
    assert_eq!(decode("{\"command\":\"echo hi\"}"), run("echo hi"));
}

#[test]
fn decode_reads_a_completion_message() {
    assert_eq!(
        decode("{\"finished_working\":\"Created a.txt with content ok.\"}"),
        finish("Created a.txt with content ok.")
    );
}

#[test]
fn decode_prefers_the_command_when_both_are_given() {
    assert_eq!(
        decode("{\"finished_working\":\"done\",\"command\":\"ls -la\"}"),
        run("ls -la")
    );
}

#[test]
fn decode_unescapes_json_text() {
    assert_eq!(
        decode("{\"command\":\"echo \\\"hi\\\"\\n\\u0041\"}"),
        run("echo \"hi\"\nA")
    );
}

#[test]
fn decode_tolerates_whitespace_and_other_members() {
    assert_eq!(
        decode(" {\n \"note\": [1, 2, {\"command\": \"inner\"}],\n \"command\" : \"pwd\" }\n"),
        run("pwd")
    );
}

#[test]
fn decode_reports_text_that_is_not_json_as_malformed() {
    assert_eq!(decode("not json"), ParsedCommand::Malformed);
    assert_eq!(decode(""), ParsedCommand::Malformed);
    assert_eq!(decode("{\"command\":\"ls\""), ParsedCommand::Malformed);
    assert_eq!(decode("{\"command\":\"ls\"} trailing"), ParsedCommand::Malformed);
    assert_eq!(decode("{command: ls}"), ParsedCommand::Malformed);
}

#[test]
fn decode_reports_documents_without_either_argument_as_malformed() {
    assert_eq!(decode("{}"), ParsedCommand::Malformed);
    assert_eq!(decode("{\"question\":\"which directory?\"}"), ParsedCommand::Malformed);
    assert_eq!(decode("{\"Command\":\"ls\"}"), ParsedCommand::Malformed);
}

#[test]
fn decode_reports_documents_that_are_not_objects_as_malformed() {
    assert_eq!(decode("[\"command\"]"), ParsedCommand::Malformed);
    assert_eq!(decode("\"command\""), ParsedCommand::Malformed);
    assert_eq!(decode("null"), ParsedCommand::Malformed);
    assert_eq!(decode("42"), ParsedCommand::Malformed);
}

#[test]
fn decode_ignores_arguments_that_are_not_text() {
    assert_eq!(decode("{\"command\":5}"), ParsedCommand::Malformed);
    assert_eq!(decode("{\"command\":null}"), ParsedCommand::Malformed);
    assert_eq!(decode("{\"command\":[\"ls\"]}"), ParsedCommand::Malformed);
    assert_eq!(
        decode("{\"command\":5,\"finished_working\":\"all done\"}"),
        finish("all done")
    );
    assert_eq!(decode("{\"finished_working\":true}"), ParsedCommand::Malformed);
}

#[test]
fn decode_accepts_empty_texts() {
    assert_eq!(decode("{\"command\":\"\"}"), run(""));
    assert_eq!(decode("{\"finished_working\":\"\"}"), finish(""));
}

#[test]
fn decode_gives_the_same_result_when_repeated() {
    let inputs = [
        "{\"command\":\"echo hi\"}",
        "{\"finished_working\":\"done\"}",
        "{}",
        "not json",
        "{\"command\":\"a\",\"finished_working\":\"b\"}",
    ];
    for raw in inputs {
        assert_eq!(decode(raw), decode(raw));
    }
}

#[test]
fn classify_follows_the_order_of_precedence() {
    assert_eq!(classify(Some("ls".to_string()), None), run("ls"));
    assert_eq!(classify(Some("ls".to_string()), Some("done".to_string())), run("ls"));
    assert_eq!(classify(None, Some("done".to_string())), finish("done"));
    assert_eq!(classify(None, None), ParsedCommand::Malformed);
}
