use command_agent::conversation::Conversation;
use command_agent::models::openai_request::{Message, Role};

fn message(role: Role, content: &str) -> Message {
    Message { role, content: content.to_string() }
}

#[test]
fn new_conversation_holds_system_then_goal() {
    let conversation = Conversation::new("rules".to_string(), "goal".to_string());
    assert_eq!(conversation.length(), 2);
    assert_eq!(
        conversation.snapshot(),
        vec![message(Role::System, "rules"), message(Role::User, "goal")]
    );
}

#[test]
fn append_adds_at_the_end_and_keeps_the_rest() {
    let mut conversation = Conversation::new("rules".to_string(), "goal".to_string());
    conversation.append(message(Role::Assistant, "first"));
    conversation.append(message(Role::User, "second"));
    assert_eq!(conversation.length(), 4);
    assert_eq!(
        conversation.snapshot(),
        vec![
            message(Role::System, "rules"),
            message(Role::User, "goal"),
            message(Role::Assistant, "first"),
            message(Role::User, "second"),
        ]
    );
}

#[test]
fn first_message_stays_the_systems() {
    let mut conversation = Conversation::new("rules".to_string(), "goal".to_string());
    for index in 0..10 {
        conversation.append(message(Role::System, &format!("late {}", index)));
        assert_eq!(conversation.snapshot()[0], message(Role::System, "rules"));
    }
    assert_eq!(conversation.length(), 12);
}

#[test]
fn snapshot_does_not_see_later_additions() {
    let mut conversation = Conversation::new("rules".to_string(), "goal".to_string());
    let before = conversation.snapshot();
    conversation.append(message(Role::Assistant, "later"));
    assert_eq!(before.len(), 2);
    assert_eq!(conversation.snapshot().len(), 3);
    let mut copy = conversation.snapshot();
    copy.clear();
    assert_eq!(conversation.length(), 3);
}

#[test]
fn roles_have_their_wire_names() {
    assert_eq!(Role::System.as_str(), "system");
    assert_eq!(Role::User.as_str(), "user");
    assert_eq!(Role::Assistant.as_str(), "assistant");
}
