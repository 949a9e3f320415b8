use command_agent::agent::{Action, Agent, Event, LoopState};
use command_agent::error::AgentError;
use command_agent::helpers::config::Config;
use command_agent::helpers::create_system_message::create_system_message;
use command_agent::models::openai_request::{Message as RequestMessage, Role};
use command_agent::models::openai_response::{
    Choice, Message, OpenAIResponse, ToolCall, ToolFunction, Usage,
};
use command_agent::services::executor::RawOutput;

fn settings(max_iterations: usize) -> Config {
    Config {
        version: "1".to_string(),
        openai_api_url: "https://example.invalid/v1/chat/completions".to_string(),
        openai_api_key: "token".to_string(),
        model: "model-x".to_string(),
        max_iterations,
    }
}

fn response_of(tool_calls: Vec<(&str, &str)>) -> OpenAIResponse {
    let calls: Vec<ToolCall> = tool_calls
        .iter()
        .map(|(name, arguments)| ToolCall {
            id: "call_0".to_string(),
            tool_type: "function".to_string(),
            function: ToolFunction { name: name.to_string(), arguments: arguments.to_string() },
        })
        .collect();
    OpenAIResponse {
        id: "resp".to_string(),
        object: "chat.completion".to_string(),
        created: 1,
        model: "model-x".to_string(),
        choices: vec![Choice {
            index: 0,
            message: Message {
                role: "assistant".to_string(),
                content: None,
                tool_calls: Some(calls),
            },
            finish_reason: "tool_calls".to_string(),
        }],
        usage: Usage { prompt_tokens: 1, completion_tokens: 2, total_tokens: 3 },
        system_fingerprint: "fp".to_string(),
    }
}

fn empty_response() -> OpenAIResponse {
    let mut response = response_of(vec![]);
    response.choices.clear();
    response
}

fn output(succeeded: bool, stdout: &str, stderr: &str) -> RawOutput {
    RawOutput { succeeded, stdout: stdout.as_bytes().to_vec(), stderr: stderr.as_bytes().to_vec() }
}

fn awaiting(goal: &str, max_iterations: usize) -> Agent {
    let mut agent = Agent::new(goal.to_string(), settings(max_iterations));
    assert!(matches!(agent.step(Event::Begin), Action::Request(_)));
    agent
}

fn executing(goal: &str, max_iterations: usize, arguments: &str) -> Agent {
    let mut agent = awaiting(goal, max_iterations);
    let action = agent.step(Event::Completion(response_of(vec![("command_line", arguments)])));
    assert!(matches!(action, Action::Execute(_)));
    agent
}

#[test]
fn new_agent_is_seeded_with_system_and_goal() {
    let agent = Agent::new("tidy up".to_string(), settings(10));
    assert_eq!(*agent.state(), LoopState::Running);
    assert_eq!(
        agent.conversation().snapshot(),
        vec![
            RequestMessage {
                role: Role::System,
                content: create_system_message("tidy up".to_string()),
            },
            RequestMessage { role: Role::User, content: "tidy up".to_string() },
        ]
    );
    assert_eq!(*agent.config(), settings(10));
}

#[test]
fn first_step_asks_the_model() {
    let mut agent = Agent::new("tidy up".to_string(), settings(10));
    match agent.step(Event::Begin) {
        Action::Request(request) => {
            assert_eq!(request.model, "model-x");
            assert_eq!(request.messages, agent.conversation().snapshot());
            assert_eq!(request.tools.len(), 1);
            assert_eq!(request.tool_choice.function.name, "command_line");
        }
        other => panic!("unexpected action {:?}", other),
    }
    assert_eq!(*agent.state(), LoopState::AwaitingCompletion);
}

#[test]
fn conversation_longer_than_the_limit_stops_before_any_request() {
    for max_iterations in [0usize, 1] {
        let mut agent = Agent::new("tidy up".to_string(), settings(max_iterations));
        assert_eq!(agent.step(Event::Begin), Action::Stop);
        assert_eq!(*agent.state(), LoopState::IterationLimitReached);
        assert_eq!(agent.conversation().length(), 2);
    }
}

#[test]
fn conversation_as_long_as_the_limit_still_asks() {
    let mut agent = Agent::new("tidy up".to_string(), settings(2));
    assert!(matches!(agent.step(Event::Begin), Action::Request(_)));
}

#[test]
fn limit_is_checked_again_after_each_command() {
    let mut agent = executing("tidy up", 3, "{\"command\":\"ls\"}");
    assert_eq!(agent.step(Event::Executed(output(true, "a.txt\n", ""))), Action::Stop);
    assert_eq!(*agent.state(), LoopState::IterationLimitReached);
    assert_eq!(agent.conversation().length(), 4);
    assert_eq!(agent.step(Event::Begin), Action::Stop);
    assert_eq!(agent.step(Event::Completion(empty_response())), Action::Stop);
    assert_eq!(*agent.state(), LoopState::IterationLimitReached);
}

#[test]
fn malformed_arguments_fail_the_run_with_a_decode_error() {
    for arguments in ["not json", "{}", "{\"command\":7}", "[]", ""] {
        let mut agent = awaiting("tidy up", 10);
        let action = agent.step(Event::Completion(response_of(vec![("command_line", arguments)])));
        assert_eq!(action, Action::Stop);
        assert_eq!(*agent.state(), LoopState::Failed(AgentError::Decode));
        assert_eq!(agent.conversation().length(), 2);
    }
}

#[test]
fn nonzero_exit_is_reported_to_the_model_and_the_run_goes_on() {
    let mut agent = executing("tidy up", 10, "{\"command\":\"ls missing\"}");
    let action = agent.step(Event::Executed(output(
        false,
        "",
        "ls: cannot access 'missing': No such file or directory\n",
    )));
    assert!(matches!(action, Action::Request(_)));
    assert_eq!(*agent.state(), LoopState::AwaitingCompletion);
    let messages = agent.conversation().snapshot();
    assert_eq!(messages.len(), 4);
    assert_eq!(messages[3].role, Role::User);
    assert_eq!(
        messages[3].content,
        "Command executed. Output from CLI: ls: cannot access 'missing': No such file or directory\n. Please run the next command. Check if you have completed your goal or not."
    );
}

#[test]
fn echo_round_trip_appends_exactly_two_messages() {
    let mut agent = awaiting("say hi", 10);
    let action =
        agent.step(Event::Completion(response_of(vec![("command_line", "{\"command\":\"echo hi\"}")])));
    assert_eq!(action, Action::Execute("echo hi".to_string()));
    assert_eq!(agent.conversation().length(), 2);
    let before = agent.conversation().snapshot();

    let action = agent.step(Event::Executed(output(true, "hi\n", "")));
    let messages = agent.conversation().snapshot();
    assert_eq!(messages.len(), 4);
    assert_eq!(messages[..2], before[..]);
    assert_eq!(
        messages[2],
        RequestMessage {
            role: Role::Assistant,
            content: "Function Name: command_line, Arguments: {\"command\":\"echo hi\"}"
                .to_string(),
        }
    );
    assert_eq!(
        messages[3],
        RequestMessage {
            role: Role::User,
            content: "Command executed. Output from CLI: hi\n. Please run the next command. Check if you have completed your goal or not."
                .to_string(),
        }
    );
    match action {
        Action::Request(request) => assert_eq!(request.messages, messages),
        other => panic!("unexpected action {:?}", other),
    }
    assert_eq!(*agent.state(), LoopState::AwaitingCompletion);
}

#[test]
fn goal_is_reached_after_one_command_and_two_requests() {
    let mut responses = vec![
        response_of(vec![("command_line", "{\"command\":\"touch a.txt && echo ok > a.txt\"}")]),
        response_of(vec![(
            "command_line",
            "{\"finished_working\":\"Created a.txt with content ok.\"}",
        )]),
    ]
    .into_iter();
    let mut agent =
        Agent::new("create file a.txt containing 'ok'".to_string(), settings(10));
    let mut requests = 0;
    let mut executions = 0;
    let mut commands: Vec<String> = Vec::new();
    let mut action = agent.step(Event::Begin);
    loop {
        action = match action {
            Action::Request(_) => {
                requests += 1;
                agent.step(Event::Completion(responses.next().unwrap()))
            }
            Action::Execute(command) => {
                executions += 1;
                commands.push(command);
                agent.step(Event::Executed(output(true, "", "")))
            }
            Action::Stop => break,
            Action::Rejected => panic!("the agent rejected an event"),
        };
    }
    assert_eq!(requests, 2);
    assert_eq!(executions, 1);
    assert_eq!(commands, vec!["touch a.txt && echo ok > a.txt".to_string()]);
    assert_eq!(
        *agent.state(),
        LoopState::Finished("Created a.txt with content ok.".to_string())
    );
    assert_eq!(agent.conversation().length(), 4);
    assert!(responses.next().is_none());
}

#[test]
fn response_without_choices_fails_and_leaves_the_conversation_alone() {
    let mut agent = awaiting("tidy up", 10);
    let before = agent.conversation().snapshot();
    assert_eq!(agent.step(Event::Completion(empty_response())), Action::Stop);
    assert_eq!(*agent.state(), LoopState::Failed(AgentError::NoChoice));
    assert_eq!(agent.conversation().snapshot(), before);
}

#[test]
fn response_without_invocation_fails() {
    let mut agent = awaiting("tidy up", 10);
    assert_eq!(agent.step(Event::Completion(response_of(vec![]))), Action::Stop);
    assert_eq!(*agent.state(), LoopState::Failed(AgentError::NoInvocation));
    assert_eq!(agent.conversation().length(), 2);
}

#[test]
fn client_failures_are_passed_on_by_kind() {
    for error in [AgentError::Transport, AgentError::Protocol] {
        let mut agent = awaiting("tidy up", 10);
        assert_eq!(agent.step(Event::CompletionFailed(error)), Action::Stop);
        assert_eq!(*agent.state(), LoopState::Failed(error));
    }
}

#[test]
fn only_the_first_invocation_is_processed() {
    let mut agent = awaiting("tidy up", 10);
    let action = agent.step(Event::Completion(response_of(vec![
        ("command_line", "{\"command\":\"first\"}"),
        ("command_line", "{\"command\":\"second\"}"),
    ])));
    assert_eq!(action, Action::Execute("first".to_string()));
    assert_eq!(
        *agent.state(),
        LoopState::Executing(ToolFunction {
            name: "command_line".to_string(),
            arguments: "{\"command\":\"first\"}".to_string(),
        })
    );
}

#[test]
fn command_for_another_tool_is_not_executed() {
    let mut agent = awaiting("tidy up", 10);
    let action =
        agent.step(Event::Completion(response_of(vec![("help_or_clarification", "{\"command\":\"ls\"}")])));
    assert_eq!(action, Action::Stop);
    assert_eq!(*agent.state(), LoopState::Failed(AgentError::UnsupportedTool));
}

#[test]
fn spawn_failure_fails_the_run() {
    let mut agent = executing("tidy up", 10, "{\"command\":\"ls\"}");
    assert_eq!(agent.step(Event::SpawnFailed), Action::Stop);
    assert_eq!(*agent.state(), LoopState::Failed(AgentError::ExecutorSpawn));
    assert_eq!(agent.conversation().length(), 2);
}

#[test]
fn undecodable_output_fails_the_run() {
    let mut agent = executing("tidy up", 10, "{\"command\":\"cat blob\"}");
    let raw = RawOutput { succeeded: true, stdout: vec![0xff, 0x00], stderr: Vec::new() };
    assert_eq!(agent.step(Event::Executed(raw)), Action::Stop);
    assert_eq!(*agent.state(), LoopState::Failed(AgentError::ExecutorSpawn));
    assert_eq!(agent.conversation().length(), 2);
}

#[test]
fn events_out_of_turn_are_rejected_and_change_nothing() {
    let mut agent = Agent::new("tidy up".to_string(), settings(10));
    assert_eq!(agent.step(Event::SpawnFailed), Action::Rejected);
    assert_eq!(agent.step(Event::Executed(output(true, "x", ""))), Action::Rejected);
    assert_eq!(agent.step(Event::CompletionFailed(AgentError::Transport)), Action::Rejected);
    assert_eq!(agent.step(Event::Completion(empty_response())), Action::Rejected);
    assert_eq!(*agent.state(), LoopState::Running);

    let mut agent = awaiting("tidy up", 10);
    assert_eq!(agent.step(Event::Begin), Action::Rejected);
    assert_eq!(agent.step(Event::SpawnFailed), Action::Rejected);
    assert_eq!(*agent.state(), LoopState::AwaitingCompletion);

    let mut agent = executing("tidy up", 10, "{\"command\":\"ls\"}");
    assert_eq!(agent.step(Event::Begin), Action::Rejected);
    assert_eq!(agent.step(Event::CompletionFailed(AgentError::Protocol)), Action::Rejected);
    assert!(matches!(agent.state(), LoopState::Executing(_)));
    assert_eq!(agent.conversation().length(), 2);
}

#[test]
fn finished_run_answers_every_event_with_stop() {
    let mut agent = awaiting("tidy up", 10);
    let action = agent
        .step(Event::Completion(response_of(vec![("command_line", "{\"finished_working\":\"bye\"}")])));
    assert_eq!(action, Action::Stop);
    assert_eq!(*agent.state(), LoopState::Finished("bye".to_string()));
    assert_eq!(agent.step(Event::Begin), Action::Stop);
    assert_eq!(agent.step(Event::Executed(output(true, "x", ""))), Action::Stop);
    assert_eq!(agent.step(Event::SpawnFailed), Action::Stop);
    assert_eq!(*agent.state(), LoopState::Finished("bye".to_string()));
    assert_eq!(agent.conversation().length(), 2);
}

#[test]
fn long_run_stops_at_the_limit() {
    let mut agent = Agent::new("count".to_string(), settings(7));
    let mut requests = 0;
    let mut action = agent.step(Event::Begin);
    loop {
        action = match action {
            Action::Request(request) => {
                requests += 1;
                assert!(request.messages.len() <= 7);
                agent.step(Event::Completion(response_of(vec![(
                    "command_line",
                    "{\"command\":\"true\"}",
                )])))
            }
            Action::Execute(_) => agent.step(Event::Executed(output(true, "", ""))),
            Action::Stop => break,
            Action::Rejected => panic!("the agent rejected an event"),
        };
    }
    assert_eq!(requests, 3);
    assert_eq!(agent.conversation().length(), 8);
    assert_eq!(*agent.state(), LoopState::IterationLimitReached);
}
