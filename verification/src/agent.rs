//! The agent loop as a state machine.
//!
//! The agent itself neither talks to the completion service nor runs
//! commands. It is told what happened, as an [`Event`], and answers with
//! what to do next, as an [`Action`]. The caller performs the action and
//! comes back with the next event, until the action is [`Action::Stop`].

use vstd::prelude::*;
use vstd::string::StringExecFns;
use crate::conversation::{Conversation, opening, starts_with_system};
use crate::error::AgentError;
use crate::helpers::ai_tools::COMMAND_LINE;
use crate::helpers::config::Config;
use crate::helpers::create_system_message::{create_system_message, system_message};
use crate::models::openai_request::{
    Message, MessageView, OpenAIRequest, OpenAIRequestView, Role,
};
use crate::models::openai_response::{OpenAIResponse, ToolFunction, ToolFunctionView};
use crate::services::completion::{build_request, request_for, select_invocation, selected};
use crate::services::executor::{
    CommandResult, CommandResultView, RawOutput, command_result, interpreted, output_text,
};
use crate::services::tool_arguments::{ParsedCommand, ParsedCommandView, decode, decode_spec};

verus! {

pub const RECORD_HEAD: &'static str = "Function Name: ";

pub const RECORD_MIDDLE: &'static str = ", Arguments: ";

pub const REPORT_HEAD: &'static str = "Command executed. Output from CLI: ";

pub const REPORT_TAIL: &'static str =
    ". Please run the next command. Check if you have completed your goal or not.";

/// Where a run stands.
#[derive(Debug, PartialEq, Eq)]
pub enum LoopState {
    /// Ready to begin a pass.
    Running,
    /// A request is out; the model's next command is awaited.
    AwaitingCompletion,
    /// The command of this invocation is being executed.
    Executing(ToolFunction),
    /// The model declared the goal reached, with this closing message.
    Finished(String),
    /// The run was given up for this reason.
    Failed(AgentError),
    /// The conversation outgrew the configured limit. Not an error.
    IterationLimitReached,
}

/// A state as a mathematical value.
pub enum LoopStateView {
    Running,
    AwaitingCompletion,
    Executing(ToolFunctionView),
    Finished(Seq<char>),
    Failed(AgentError),
    IterationLimitReached,
}

impl View for LoopState {
    type V = LoopStateView;

    open spec fn view(&self) -> LoopStateView {
        match self {
            LoopState::Running => LoopStateView::Running,
            LoopState::AwaitingCompletion => LoopStateView::AwaitingCompletion,
            LoopState::Executing(invocation) => LoopStateView::Executing(invocation@),
            LoopState::Finished(message) => LoopStateView::Finished(message@),
            LoopState::Failed(error) => LoopStateView::Failed(*error),
            LoopState::IterationLimitReached => LoopStateView::IterationLimitReached,
        }
    }
}

/// The states that no event leads out of.
pub open spec fn is_terminal(state: LoopStateView) -> bool {
    state is Finished || state is Failed || state is IterationLimitReached
}

/// What the caller reports to the agent.
#[derive(Debug, PartialEq, Eq)]
pub enum Event {
    /// The run is to begin.
    Begin,
    /// The completion service answered with this response.
    Completion(OpenAIResponse),
    /// No usable response was obtained, for this reason.
    CompletionFailed(AgentError),
    /// The command ran to its end and left this behind.
    Executed(RawOutput),
    /// No shell could be spawned for the command.
    SpawnFailed,
}

/// An event as a mathematical value, reduced to what the agent acts on.
pub enum EventView {
    Begin,
    /// The invocation obtained from the completion service, or why none was.
    Completion(Result<ToolFunctionView, AgentError>),
    /// The outcome of the command, or why there is none.
    Executed(Result<CommandResultView, AgentError>),
}

impl View for Event {
    type V = EventView;

    open spec fn view(&self) -> EventView {
        match self {
            Event::Begin => EventView::Begin,
            Event::Completion(response) => EventView::Completion(selected(*response)),
            Event::CompletionFailed(error) => EventView::Completion(Err(*error)),
            Event::Executed(output) => EventView::Executed(
                interpreted(output.succeeded, output.stdout@, output.stderr@),
            ),
            Event::SpawnFailed => EventView::Executed(Err(AgentError::ExecutorSpawn)),
        }
    }
}

/// What the agent asks the caller to do next.
#[derive(Debug, PartialEq, Eq)]
pub enum Action {
    /// Send this request to the completion service and report the response.
    Request(OpenAIRequest),
    /// Execute this command in the sandbox directory and report its output.
    Execute(String),
    /// The run is over.
    Stop,
    /// The event does not belong to the state the run is in. Nothing changed.
    Rejected,
}

/// An action as a mathematical value.
pub enum ActionView {
    Request(OpenAIRequestView),
    Execute(Seq<char>),
    Stop,
    Rejected,
}

impl View for Action {
    type V = ActionView;

    open spec fn view(&self) -> ActionView {
        match self {
            Action::Request(request) => ActionView::Request(request@),
            Action::Execute(command) => ActionView::Execute(command@),
            Action::Stop => ActionView::Stop,
            Action::Rejected => ActionView::Rejected,
        }
    }
}

/// One run of the agent towards one goal.
#[derive(Debug, PartialEq, Eq)]
pub struct Agent {
    conversation: Conversation,
    config: Config,
    state: LoopState,
}

/// A run as a mathematical value.
pub struct AgentView {
    pub state: LoopStateView,
    pub conversation: Seq<MessageView>,
    pub config: Config,
}

impl View for Agent {
    type V = AgentView;

    closed spec fn view(&self) -> AgentView {
        AgentView { state: self.state@, conversation: self.conversation@, config: self.config }
    }
}

/// The assistant's message that records an invocation: its name and its
/// arguments as they came.
pub open spec fn invocation_record(invocation: ToolFunctionView) -> MessageView {
    MessageView {
        role: Role::Assistant,
        content: RECORD_HEAD@ + invocation.name + RECORD_MIDDLE@ + invocation.arguments,
    }
}

/// The user's message that shows the model what its command printed and
/// asks it to decide whether the goal is reached.
pub open spec fn output_report(outcome: CommandResultView) -> MessageView {
    MessageView { role: Role::User, content: REPORT_HEAD@ + output_text(outcome) + REPORT_TAIL@ }
}

/// The run `agent` brought to rest in `state`.
pub open spec fn stopped(agent: AgentView, state: LoopStateView) -> (AgentView, ActionView) {
    (AgentView { state, ..agent }, ActionView::Stop)
}

/// The start of a pass: a conversation longer than the limit ends the run;
/// otherwise the model is asked for the next command.
pub open spec fn next_pass(agent: AgentView) -> (AgentView, ActionView) {
    if agent.conversation.len() > agent.config.max_iterations {
        stopped(agent, LoopStateView::IterationLimitReached)
    } else {
        (
            AgentView { state: LoopStateView::AwaitingCompletion, ..agent },
            ActionView::Request(request_for(agent.config.model@, agent.conversation)),
        )
    }
}

/// What follows an exchange with the completion service.
pub open spec fn after_completion(
    agent: AgentView,
    outcome: Result<ToolFunctionView, AgentError>,
) -> (AgentView, ActionView) {
    match outcome {
        Err(error) => stopped(agent, LoopStateView::Failed(error)),
        Ok(invocation) => match decode_spec(invocation.arguments) {
            ParsedCommandView::FinishSignal { message } => stopped(
                agent,
                LoopStateView::Finished(message),
            ),
            ParsedCommandView::Malformed => stopped(
                agent,
                LoopStateView::Failed(AgentError::Decode),
            ),
            ParsedCommandView::RunCommand { command } => if invocation.name == COMMAND_LINE@ {
                (
                    AgentView { state: LoopStateView::Executing(invocation), ..agent },
                    ActionView::Execute(command),
                )
            } else {
                stopped(agent, LoopStateView::Failed(AgentError::UnsupportedTool))
            },
        },
    }
}

/// What follows the execution of the command of `invocation`: an outcome,
/// whatever its exit status, is recorded and the next pass begins.
pub open spec fn after_execution(
    agent: AgentView,
    invocation: ToolFunctionView,
    outcome: Result<CommandResultView, AgentError>,
) -> (AgentView, ActionView) {
    match outcome {
        Err(error) => stopped(agent, LoopStateView::Failed(error)),
        Ok(result) => next_pass(
            AgentView {
                conversation: agent.conversation.push(invocation_record(invocation)).push(
                    output_report(result),
                ),
                ..agent
            },
        ),
    }
}

/// The agent's rule: the state and the action that follow `event`.
pub open spec fn transition(agent: AgentView, event: EventView) -> (AgentView, ActionView) {
    match (agent.state, event) {
        (LoopStateView::Running, EventView::Begin) => next_pass(agent),
        (LoopStateView::AwaitingCompletion, EventView::Completion(outcome)) => after_completion(
            agent,
            outcome,
        ),
        (LoopStateView::Executing(invocation), EventView::Executed(outcome)) => after_execution(
            agent,
            invocation,
            outcome,
        ),
        _ => if is_terminal(agent.state) {
            (agent, ActionView::Stop)
        } else {
            (agent, ActionView::Rejected)
        },
    }
}

fn make_invocation_record(invocation: &ToolFunction) -> (message: Message)
    ensures
        message@ == invocation_record(invocation@),
{
    let mut content = String::from_str(RECORD_HEAD);
    content.append(invocation.name.as_str());
    content.append(RECORD_MIDDLE);
    content.append(invocation.arguments.as_str());
    Message { role: Role::Assistant, content }
}

fn make_output_report(outcome: &CommandResult) -> (message: Message)
    ensures
        message@ == output_report(outcome@),
{
    let mut content = String::from_str(REPORT_HEAD);
    content.append(outcome.output());
    content.append(REPORT_TAIL);
    Message { role: Role::User, content }
}

impl Agent {
    /// What holds of every run: its conversation opens with the system's message.
    pub open spec fn wf(&self) -> bool {
        starts_with_system(self@.conversation)
    }

    /// Tells whether the conversation of the run opens with the system's message.
    pub fn is_well_formed(&self) -> (answer: bool)
        ensures
            answer == self.wf(),
    {
        self.conversation.is_well_formed()
    }

    /// Sets up a run towards `goal`: the conversation holds the system
    /// instructions and the goal, and the run is ready to begin.
    pub fn new(goal: String, config: Config) -> (agent: Agent)
        ensures
            agent.wf(),
            agent@ == (AgentView {
                state: LoopStateView::Running,
                conversation: opening(system_message(goal@), goal@),
                config,
            }),
    {
        let system = create_system_message(goal.clone());
        Agent { conversation: Conversation::new(system, goal), config, state: LoopState::Running }
    }

    /// Where the run stands.
    pub fn state(&self) -> (state: &LoopState)
        ensures
            state@ == self@.state,
    {
        &self.state
    }

    /// The conversation so far.
    pub fn conversation(&self) -> (conversation: &Conversation)
        ensures
            conversation@ == self@.conversation,
    {
        &self.conversation
    }

    /// The settings of the run.
    pub fn config(&self) -> (config: &Config)
        ensures
            *config == self@.config,
    {
        &self.config
    }

    fn stop(&mut self, state: LoopState) -> (action: Action)
        requires
            old(self).wf(),
        ensures
            final(self).wf(),
            (final(self)@, action@) == stopped(old(self)@, state@),
    {
        self.state = state;
        Action::Stop
    }

    fn begin_pass(&mut self) -> (action: Action)
        requires
            old(self).wf(),
        ensures
            final(self).wf(),
            (final(self)@, action@) == next_pass(old(self)@),
    {
        if self.conversation.length() > self.config.max_iterations {
            self.stop(LoopState::IterationLimitReached)
        } else {
            self.state = LoopState::AwaitingCompletion;
            Action::Request(build_request(&self.conversation, &self.config))
        }
    }

    fn completed(&mut self, outcome: Result<ToolFunction, AgentError>) -> (action: Action)
        requires
            old(self).wf(),
        ensures
            final(self).wf(),
            (final(self)@, action@) == after_completion(
                old(self)@,
                match outcome {
                    Ok(invocation) => Ok(invocation@),
                    Err(error) => Err(error),
                },
            ),
    {
        match outcome {
            Err(error) => self.stop(LoopState::Failed(error)),
            Ok(invocation) => match decode(invocation.arguments.as_str()) {
                ParsedCommand::FinishSignal { message } => self.stop(LoopState::Finished(message)),
                ParsedCommand::Malformed => self.stop(LoopState::Failed(AgentError::Decode)),
                ParsedCommand::RunCommand { command } => {
                    if invocation.name == String::from_str(COMMAND_LINE) {
                        self.state = LoopState::Executing(invocation);
                        Action::Execute(command)
                    } else {
                        self.stop(LoopState::Failed(AgentError::UnsupportedTool))
                    }
                },
            },
        }
    }

    fn executed(&mut self, invocation: ToolFunction, outcome: Result<CommandResult, AgentError>) -> (action: Action)
        requires
            old(self).wf(),
        ensures
            final(self).wf(),
            (final(self)@, action@) == after_execution(
                old(self)@,
                invocation@,
                match outcome {
                    Ok(result) => Ok(result@),
                    Err(error) => Err(error),
                },
            ),
    {
        match outcome {
            Err(error) => self.stop(LoopState::Failed(error)),
            Ok(result) => {
                self.conversation.append(make_invocation_record(&invocation));
                self.conversation.append(make_output_report(&result));
                self.begin_pass()
            },
        }
    }

    fn refuse(&self) -> (action: Action)
        ensures
            action@ == (if is_terminal(self@.state) {
                ActionView::Stop
            } else {
                ActionView::Rejected
            }),
    {
        match self.state {
            LoopState::Finished(_) | LoopState::Failed(_) | LoopState::IterationLimitReached => {
                Action::Stop
            },
            _ => Action::Rejected,
        }
    }

    /// Takes the run one step further: `event` is what happened, the result
    /// is what to do next.
    ///
    /// An event that does not belong to the current state changes nothing.
    /// It is answered with `Stop` once the run is over and with `Rejected`
    /// before that.
    pub fn step(&mut self, event: Event) -> (action: Action)
        requires
            old(self).wf(),
        ensures
            final(self).wf(),
            (final(self)@, action@) == transition(old(self)@, event@),
    {
        match event {
            Event::Begin => match self.state {
                LoopState::Running => self.begin_pass(),
                _ => self.refuse(),
            },
            Event::Completion(response) => match self.state {
                LoopState::AwaitingCompletion => match select_invocation(&response) {
                    Ok(selection) => self.completed(Ok(selection.invocation)),
                    Err(error) => self.completed(Err(error)),
                },
                _ => self.refuse(),
            },
            Event::CompletionFailed(error) => match self.state {
                LoopState::AwaitingCompletion => self.completed(Err(error)),
                _ => self.refuse(),
            },
            Event::Executed(output) => match &self.state {
                LoopState::Executing(invocation) => {
                    let invocation = invocation.clone();
                    self.executed(invocation, command_result(output))
                },
                _ => self.refuse(),
            },
            Event::SpawnFailed => match &self.state {
                LoopState::Executing(invocation) => {
                    let invocation = invocation.clone();
                    self.executed(invocation, Err(AgentError::ExecutorSpawn))
                },
                _ => self.refuse(),
            },
        }
    }
}

/// Once a run is over it stays as it is: every further event leaves the
/// state and the conversation untouched and is answered with `Stop`.
pub proof fn lemma_terminal_states_rest(agent: AgentView, event: EventView)
    requires
        is_terminal(agent.state),
    ensures
        transition(agent, event) == (agent, ActionView::Stop),
{
}

/// A pass that finds the conversation longer than the limit ends the run as
/// `IterationLimitReached`, without a request to the completion service.
pub proof fn lemma_limit_ends_run(agent: AgentView)
    requires
        agent.state is Running,
        agent.conversation.len() > agent.config.max_iterations,
    ensures
        transition(agent, EventView::Begin) == stopped(
            agent,
            LoopStateView::IterationLimitReached,
        ),
{
}

/// No step asks for a request while the conversation is longer than the
/// limit, and a request always presents the whole conversation as it then
/// stands.
pub proof fn lemma_request_within_limit(agent: AgentView, event: EventView)
    ensures
        transition(agent, event).1 matches ActionView::Request(request) ==> {
            let next = transition(agent, event).0;
            &&& next.conversation.len() <= next.config.max_iterations
            &&& next.state is AwaitingCompletion
            &&& request == request_for(next.config.model@, next.conversation)
        },
{
}

/// Arguments that decode to `Malformed` end the run as `Failed` with
/// `Decode`; no command is executed and the conversation stays as it was.
pub proof fn lemma_malformed_fails(agent: AgentView, invocation: ToolFunctionView)
    requires
        agent.state is AwaitingCompletion,
    ensures
        decode_spec(invocation.arguments) is Malformed ==> transition(
            agent,
            EventView::Completion(Ok(invocation)),
        ) == stopped(agent, LoopStateView::Failed(AgentError::Decode)),
{
}

/// A response without choices ends the run as `Failed` with `NoChoice`, and
/// the conversation stays as it was.
pub proof fn lemma_no_choice_fails(agent: AgentView, response: OpenAIResponse)
    requires
        agent.state is AwaitingCompletion,
        response.choices@.len() == 0,
    ensures
        transition(agent, Event::Completion(response)@) == stopped(
            agent,
            LoopStateView::Failed(AgentError::NoChoice),
        ),
        transition(agent, Event::Completion(response)@).0.conversation == agent.conversation,
{
}

/// A failure to obtain an invocation ends the run as `Failed` with the very
/// reason that was reported.
pub proof fn lemma_completion_failure_fails(agent: AgentView, error: AgentError)
    requires
        agent.state is AwaitingCompletion,
    ensures
        transition(agent, EventView::Completion(Err(error))) == stopped(
            agent,
            LoopStateView::Failed(error),
        ),
{
}

/// The output of a command is recorded whatever its exit status: the
/// conversation grows by exactly two messages, the assistant's record of
/// the invocation and the user's report of what was printed, and the run
/// goes on to its next pass. A nonzero exit status never fails the run.
pub proof fn lemma_outcome_recorded(
    agent: AgentView,
    invocation: ToolFunctionView,
    outcome: CommandResultView,
)
    requires
        agent.state == LoopStateView::Executing(invocation),
    ensures
        ({
            let next = transition(agent, EventView::Executed(Ok(outcome))).0;
            &&& next.conversation == agent.conversation + seq![
                invocation_record(invocation),
                output_report(outcome),
            ]
            &&& next.conversation.len() == agent.conversation.len() + 2
            &&& next.state is AwaitingCompletion || next.state is IterationLimitReached
        }),
        !outcome.succeeded ==> output_report(outcome).content == REPORT_HEAD@ + outcome.stderr
            + REPORT_TAIL@,
        outcome.succeeded ==> output_report(outcome).content == REPORT_HEAD@ + outcome.stdout
            + REPORT_TAIL@,
{
    let grown = agent.conversation.push(invocation_record(invocation)).push(
        output_report(outcome),
    );
    assert(grown =~= agent.conversation + seq![
        invocation_record(invocation),
        output_report(outcome),
    ]);
}

/// The conversation is append-only: whatever the event, what was recorded
/// before the step is still there after it, in the same order, the first
/// message is still the system's, and the settings are unchanged.
pub proof fn lemma_conversation_only_grows(agent: AgentView, event: EventView)
    ensures
        agent.conversation.is_prefix_of(transition(agent, event).0.conversation),
        starts_with_system(agent.conversation) ==> starts_with_system(
            transition(agent, event).0.conversation,
        ),
        transition(agent, event).0.config == agent.config,
{
    let next = transition(agent, event).0;
    match (agent.state, event) {
        (LoopStateView::Executing(invocation), EventView::Executed(Ok(outcome))) => {
            let grown = agent.conversation.push(invocation_record(invocation)).push(
                output_report(outcome),
            );
            assert(next.conversation == grown);
            assert(agent.conversation.is_prefix_of(grown));
        },
        _ => {
            assert(next.conversation == agent.conversation);
        },
    }
}

/// The run after a whole sequence of events, taken in order.
pub open spec fn after_events(agent: AgentView, events: Seq<EventView>) -> AgentView
    decreases events.len(),
{
    if events.len() == 0 {
        agent
    } else {
        after_events(transition(agent, events[0]).0, events.drop_first())
    }
}

/// The limit bounds the conversation: while a command is awaited or being
/// executed the conversation is within the limit, and it never exceeds the
/// limit by more than the two messages of the last command.
pub open spec fn within_limit(agent: AgentView) -> bool {
    &&& agent.conversation.len() <= agent.config.max_iterations + 2
    &&& agent.state is AwaitingCompletion || agent.state is Executing
        ==> agent.conversation.len() <= agent.config.max_iterations
}

/// A new run is within the limit, and every step keeps it there.
pub proof fn lemma_step_keeps_within_limit(agent: AgentView, event: EventView)
    ensures
        agent.state is Running && agent.conversation.len() == 2 ==> within_limit(agent),
        within_limit(agent) ==> within_limit(transition(agent, event).0),
{
}

/// Whatever events a run meets, in whatever order: its conversation keeps
/// everything that was recorded, still opens with the system's message,
/// stays within the limit, and its settings stay as they were. A run that
/// is over stays exactly as it is.
pub proof fn lemma_run_invariants(agent: AgentView, events: Seq<EventView>)
    ensures
        agent.conversation.is_prefix_of(after_events(agent, events).conversation),
        starts_with_system(agent.conversation) ==> starts_with_system(
            after_events(agent, events).conversation,
        ),
        within_limit(agent) ==> within_limit(after_events(agent, events)),
        after_events(agent, events).config == agent.config,
        is_terminal(agent.state) ==> after_events(agent, events) == agent,
    decreases events.len(),
{
    if events.len() > 0 {
        let next = transition(agent, events[0]).0;
        lemma_conversation_only_grows(agent, events[0]);
        lemma_step_keeps_within_limit(agent, events[0]);
        lemma_run_invariants(next, events.drop_first());
        if is_terminal(agent.state) {
            lemma_terminal_states_rest(agent, events[0]);
        }
    }
}

} // verus!
