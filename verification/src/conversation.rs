//! The conversation of a run: an append-only log of messages that always
//! opens with the system instructions.

use vstd::prelude::*;
use crate::models::openai_request::{Message, MessageView, Role, messages_view};

verus! {

/// The log of one run. Messages are only ever added at the end; none is
/// removed, edited or moved.
#[derive(Debug, PartialEq, Eq)]
pub struct Conversation {
    messages: Vec<Message>,
}

/// The two messages that open a run: the system instructions, then the goal.
pub open spec fn opening(system: Seq<char>, goal: Seq<char>) -> Seq<MessageView> {
    seq![
        MessageView { role: Role::System, content: system },
        MessageView { role: Role::User, content: goal },
    ]
}

/// A log is never empty and its first message is the system's.
pub open spec fn starts_with_system(messages: Seq<MessageView>) -> bool {
    messages.len() > 0 && messages[0].role == Role::System
}

impl View for Conversation {
    type V = Seq<MessageView>;

    closed spec fn view(&self) -> Seq<MessageView> {
        messages_view(self.messages@)
    }
}

impl Conversation {
    /// What holds of every conversation: it opens with the system's message.
    pub open spec fn wf(&self) -> bool {
        starts_with_system(self@)
    }

    /// Tells whether the conversation opens with the system's message.
    pub fn is_well_formed(&self) -> (answer: bool)
        ensures
            answer == self.wf(),
    {
        if self.messages.len() == 0 {
            false
        } else {
            match self.messages[0].role {
                Role::System => true,
                _ => false,
            }
        }
    }

    /// Opens a conversation with the system instructions and the goal.
    pub fn new(system: String, goal: String) -> (conversation: Conversation)
        ensures
            conversation@ == opening(system@, goal@),
            conversation.wf(),
    {
        let mut messages: Vec<Message> = Vec::new();
        messages.push(Message { role: Role::System, content: system });
        messages.push(Message { role: Role::User, content: goal });
        assert(messages_view(messages@) =~= opening(system@, goal@));
        Conversation { messages }
    }

    /// Adds `message` at the end. Everything recorded before stays as it was.
    pub fn append(&mut self, message: Message)
        requires
            old(self).wf(),
        ensures
            final(self)@ == old(self)@.push(message@),
            final(self).wf(),
    {
        self.messages.push(message);
        assert(messages_view(self.messages@) =~= messages_view(old(self).messages@).push(
            message@,
        ));
    }

    /// A copy of the log, in order. Later additions do not show in it.
    pub fn snapshot(&self) -> (copy: Vec<Message>)
        ensures
            messages_view(copy@) == self@,
    {
        let mut copy: Vec<Message> = Vec::new();
        let mut index: usize = 0;
        while index < self.messages.len()
            invariant
                index <= self.messages@.len(),
                copy@ == self.messages@.subrange(0, index as int),
            decreases self.messages@.len() - index,
        {
            copy.push(self.messages[index].clone());
            index = index + 1;
            assert(copy@ =~= self.messages@.subrange(0, index as int));
        }
        assert(copy@ =~= self.messages@);
        copy
    }

    /// The number of messages recorded so far.
    pub fn length(&self) -> (count: usize)
        ensures
            count == self@.len(),
    {
        self.messages.len()
    }
}

} // verus!
