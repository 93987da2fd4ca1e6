use hlpr::failure::Failure;
use hlpr::history::{Conversation, History};
use hlpr::input::join_fragments;
use hlpr::message::{Message, Role};
use hlpr::turn::{complete, first_reply, prepare, starts_conversation};
use std::collections::HashMap;

fn assistant(text: &str) -> Message {
    Message {
        role: Role::Assistant,
        content: Some(text.to_string()),
        name: None,
        function_call: None,
    }
}

fn bodiless() -> Message {
    Message { role: Role::Assistant, content: None, name: None, function_call: None }
}

fn existing(n: i64) -> History {
    let mut conversations = HashMap::new();
    for id in 0..n {
        conversations.insert(id, Conversation { id, messages: vec![assistant("earlier")] });
    }
    History { current_conversation_id: 0, conversations }
}

#[test]
fn first_run_with_hello() {
    let loaded: Option<History> = None;
    assert!(starts_conversation(false, &loaded));
    let mut history = prepare(loaded, false, None);
    assert_eq!(history.select(None), Ok(()));
    let content = join_fragments(&vec!["hello".to_string()]);
    let request = history.request_messages(&content).unwrap();
    assert_eq!(request, vec![Message::user("hello".to_string())]);
    let text = complete(&mut history, content, &vec![assistant("hi there")]);
    assert_eq!(text, Ok("hi there".to_string()));
    assert_eq!(history.current_conversation_id, 0);
    assert_eq!(history.conversations.len(), 1);
    assert_eq!(
        history.conversations[&0],
        Conversation {
            id: 0,
            messages: vec![Message::user("hello".to_string()), assistant("hi there")],
        }
    );
}

#[test]
fn new_flag_on_existing_history_uses_the_count() {
    let loaded = Some(existing(4));
    assert!(starts_conversation(true, &loaded));
    let history = prepare(loaded, true, Some("sys".to_string()));
    assert_eq!(history.current_conversation_id, 4);
    assert_eq!(history.conversations.len(), 5);
    assert_eq!(history.conversations[&4].messages, vec![Message::system("sys".to_string())]);
    for id in 0..4 {
        assert_eq!(history.conversations[&id].messages, vec![assistant("earlier")]);
    }
}

#[test]
fn existing_history_without_new_flag_is_kept() {
    let loaded = Some(existing(2));
    assert!(!starts_conversation(false, &loaded));
    let history = prepare(loaded, false, Some("ignored".to_string()));
    assert_eq!(history, existing(2));
}

#[test]
fn no_history_starts_with_the_system_prompt() {
    let history = prepare(None, true, Some("sys".to_string()));
    assert_eq!(history, History::start(Some("sys".to_string())));
    assert_eq!(history.conversations[&0].messages, vec![Message::system("sys".to_string())]);
}

#[test]
fn first_reply_is_the_first_choice() {
    let choices = vec![assistant("one"), assistant("two")];
    assert_eq!(first_reply(&choices), Ok(assistant("one")));
}

#[test]
fn empty_response_is_refused() {
    assert_eq!(first_reply(&vec![]), Err(Failure::NoReply));
}

#[test]
fn reply_without_body_is_refused() {
    assert_eq!(first_reply(&vec![bodiless(), assistant("two")]), Err(Failure::NoReplyBody));
}

#[test]
fn complete_records_and_returns_the_reply_text() {
    let mut history = existing(3);
    assert_eq!(history.select(Some(2)), Ok(()));
    let text = complete(&mut history, "a\nb".to_string(), &vec![assistant("reply")]);
    assert_eq!(text, Ok("reply".to_string()));
    assert_eq!(history.current_conversation_id, 2);
    let messages = &history.conversations[&2].messages;
    assert_eq!(messages.len(), 3);
    assert_eq!(messages[0], assistant("earlier"));
    assert_eq!(messages[1], Message::user("a\nb".to_string()));
    assert_eq!(messages[2], assistant("reply"));
    assert_eq!(history.conversations[&0].messages, vec![assistant("earlier")]);
    assert_eq!(history.conversations[&1].messages, vec![assistant("earlier")]);
}

#[test]
fn complete_changes_nothing_on_failure() {
    let mut history = existing(2);
    let before = history.clone();
    assert_eq!(complete(&mut history, "q".to_string(), &vec![]), Err(Failure::NoReply));
    assert_eq!(history, before);
    assert_eq!(complete(&mut history, "q".to_string(), &vec![bodiless()]), Err(Failure::NoReplyBody));
    assert_eq!(history, before);
    history.current_conversation_id = 8;
    let before = history.clone();
    assert_eq!(
        complete(&mut history, "q".to_string(), &vec![assistant("a")]),
        Err(Failure::UnknownConversation(8))
    );
    assert_eq!(history, before);
}

#[test]
fn missing_reply_is_reported_before_missing_conversation() {
    let mut history = existing(1);
    history.current_conversation_id = 3;
    assert_eq!(complete(&mut history, "q".to_string(), &vec![]), Err(Failure::NoReply));
}

#[test]
fn selecting_unknown_after_first_run_setup_fails() {
    let mut history = prepare(None, false, None);
    let before = history.clone();
    assert_eq!(history.select(Some(5)), Err(Failure::UnknownConversation(5)));
    assert_eq!(history, before);
}
