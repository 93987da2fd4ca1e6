use hlpr::config::{Args, Config, Environment};
use hlpr::failure::Failure;
use hlpr::history::{Conversation, History};
use hlpr::input::TextSource;
use hlpr::message::{Message, Role};
use hlpr::run::{launch, step, Action, Event, Stage};
use std::collections::HashMap;

fn s(text: &str) -> String {
    text.to_string()
}

fn reply(text: &str) -> Message {
    Message { role: Role::Assistant, content: Some(s(text)), name: None, function_call: None }
}

fn env() -> Environment {
    Environment { history_file: Some(s("/tmp/h.json")), home: s("/home/u"), system_message: None }
}

fn args(message: &[&str]) -> Args {
    Args {
        system: None,
        conversation: None,
        new: false,
        history_file_path: None,
        message: message.iter().map(|m| s(m)).collect(),
    }
}

fn stored(n: i64, current: i64) -> History {
    let mut conversations = HashMap::new();
    for id in 0..n {
        conversations.insert(
            id,
            Conversation { id, messages: vec![Message::user(format!("q{}", id)), reply("a")] },
        );
    }
    History { current_conversation_id: current, conversations }
}

fn config_of(stage: &Stage) -> Config {
    match stage {
        Stage::HistoryWanted { config } => config.clone(),
        other => panic!("unexpected stage {:?}", other),
    }
}

#[test]
fn run_first_ever_with_hello() {
    let (stage, action) = launch(args(&["hello"]), env());
    assert_eq!(action, Action::ReadHistory { path: s("/tmp/h.json") });
    let (stage, action) = step(stage, Event::HistoryRead { loaded: None });
    assert_eq!(action, Action::ReadText { arg: s("hello"), source: TextSource::FileOrLiteral });
    let (stage, action) = step(stage, Event::TextRead { read: None });
    assert_eq!(action, Action::Send { messages: vec![Message::user(s("hello"))] });
    let (stage, action) = step(stage, Event::Replied { choices: vec![reply("hi!")] });
    assert_eq!(stage, Stage::Over);
    let mut conversations = HashMap::new();
    conversations.insert(
        0,
        Conversation { id: 0, messages: vec![Message::user(s("hello")), reply("hi!")] },
    );
    assert_eq!(
        action,
        Action::Persist {
            path: s("/tmp/h.json"),
            history: History { current_conversation_id: 0, conversations },
            reply: s("hi!"),
        }
    );
}

#[test]
fn run_refuses_conflicting_flags_before_any_reading() {
    let given = Args { new: true, conversation: Some(0), ..args(&["m"]) };
    let (stage, action) = launch(given, env());
    assert_eq!(stage, Stage::Over);
    assert_eq!(action, Action::Abort { failure: Failure::ConflictingSelection });
}

#[test]
fn run_with_new_flag_opens_conversation_n() {
    let given = Args { new: true, ..args(&["m"]) };
    let (stage, _) = launch(given, env());
    let (stage, action) = step(stage, Event::HistoryRead { loaded: Some(stored(3, 1)) });
    assert_eq!(action, Action::ReadText { arg: s("m"), source: TextSource::FileOrLiteral });
    match &stage {
        Stage::FragmentWanted { history, resolved, .. } => {
            assert_eq!(history.current_conversation_id, 3);
            assert_eq!(history.conversations.len(), 4);
            assert_eq!(history.conversations[&3], Conversation { id: 3, messages: vec![] });
            assert!(resolved.is_empty());
        }
        other => panic!("unexpected stage {:?}", other),
    }
    let (stage, action) = step(stage, Event::TextRead { read: None });
    assert_eq!(action, Action::Send { messages: vec![Message::user(s("m"))] });
    let (_, action) = step(stage, Event::Replied { choices: vec![reply("r")] });
    match action {
        Action::Persist { history, reply: text, .. } => {
            assert_eq!(text, s("r"));
            assert_eq!(history.current_conversation_id, 3);
            assert_eq!(history.conversations[&3].messages, vec![Message::user(s("m")), reply("r")]);
            for id in 0..3 {
                assert_eq!(history.conversations[&id], stored(3, 1).conversations[&id]);
            }
        }
        other => panic!("unexpected action {:?}", other),
    }
}

#[test]
fn run_reads_the_system_prompt_only_when_a_conversation_opens() {
    let given = Args { system: Some(s("prompt.txt")), ..args(&["m"]) };
    let (stage, _) = launch(given.clone(), env());
    let (_, action) = step(stage, Event::HistoryRead { loaded: Some(stored(1, 0)) });
    assert_eq!(action, Action::ReadText { arg: s("m"), source: TextSource::FileOrLiteral });

    let (stage, _) = launch(given, env());
    let (stage, action) = step(stage, Event::HistoryRead { loaded: None });
    assert_eq!(action, Action::ReadText { arg: s("prompt.txt"), source: TextSource::FileOrLiteral });
    let (stage, action) = step(stage, Event::TextRead { read: Some(s("Be kind.")) });
    assert_eq!(action, Action::ReadText { arg: s("m"), source: TextSource::FileOrLiteral });
    let (_, action) = step(stage, Event::TextRead { read: None });
    assert_eq!(
        action,
        Action::Send { messages: vec![Message::system(s("Be kind.")), Message::user(s("m"))] }
    );
}

#[test]
fn run_takes_a_system_prompt_that_names_no_file_literally() {
    let given = Args { system: Some(s("Be kind.")), new: true, ..args(&["m"]) };
    let (stage, _) = launch(given, env());
    let (stage, _) = step(stage, Event::HistoryRead { loaded: Some(stored(2, 0)) });
    let (stage, _) = step(stage, Event::TextRead { read: None });
    let (_, action) = step(stage, Event::TextRead { read: None });
    assert_eq!(
        action,
        Action::Send { messages: vec![Message::system(s("Be kind.")), Message::user(s("m"))] }
    );
}

#[test]
fn run_uses_the_environment_system_prompt_when_no_flag_is_given() {
    let environment = Environment { system_message: Some(s("-")), ..env() };
    let (stage, _) = launch(args(&["m"]), environment);
    let (_, action) = step(stage, Event::HistoryRead { loaded: None });
    assert_eq!(action, Action::ReadText { arg: s("-"), source: TextSource::Stdin });
}

#[test]
fn run_joins_fragments_in_order() {
    let (stage, _) = launch(args(&["a", "-", "b"]), env());
    let (stage, action) = step(stage, Event::HistoryRead { loaded: Some(stored(1, 0)) });
    assert_eq!(action, Action::ReadText { arg: s("a"), source: TextSource::FileOrLiteral });
    let (stage, action) = step(stage, Event::TextRead { read: None });
    assert_eq!(action, Action::ReadText { arg: s("-"), source: TextSource::Stdin });
    let (stage, action) = step(stage, Event::TextRead { read: Some(s("piped")) });
    assert_eq!(action, Action::ReadText { arg: s("b"), source: TextSource::FileOrLiteral });
    let (stage, action) = step(stage, Event::TextRead { read: Some(s("file b")) });
    assert_eq!(
        action,
        Action::Send {
            messages: vec![
                Message::user(s("q0")),
                reply("a"),
                Message::user(s("a\npiped\nfile b")),
            ],
        }
    );
    match stage {
        Stage::ReplyWanted { content, .. } => assert_eq!(content, s("a\npiped\nfile b")),
        other => panic!("unexpected stage {:?}", other),
    }
}

#[test]
fn run_selecting_a_missing_conversation_aborts_without_reading_or_writing() {
    let given = Args { conversation: Some(9), ..args(&["m"]) };
    let (stage, _) = launch(given, env());
    let (stage, action) = step(stage, Event::HistoryRead { loaded: Some(stored(2, 0)) });
    assert_eq!(stage, Stage::Over);
    assert_eq!(action, Action::Abort { failure: Failure::UnknownConversation(9) });
    let (stage, action) = step(stage, Event::Replied { choices: vec![reply("r")] });
    assert_eq!(stage, Stage::Over);
    assert_eq!(action, Action::Abort { failure: Failure::OutOfTurn });
}

#[test]
fn run_selecting_an_existing_conversation_continues_it() {
    let given = Args { conversation: Some(1), ..args(&["more"]) };
    let (stage, _) = launch(given, env());
    let (stage, _) = step(stage, Event::HistoryRead { loaded: Some(stored(3, 0)) });
    let (stage, action) = step(stage, Event::TextRead { read: None });
    assert_eq!(
        action,
        Action::Send { messages: vec![Message::user(s("q1")), reply("a"), Message::user(s("more"))] }
    );
    let (_, action) = step(stage, Event::Replied { choices: vec![reply("sure")] });
    match action {
        Action::Persist { history, .. } => {
            assert_eq!(history.current_conversation_id, 1);
            let messages = &history.conversations[&1].messages;
            assert_eq!(messages[messages.len() - 2], Message::user(s("more")));
            assert_eq!(messages[messages.len() - 1], reply("sure"));
            assert_eq!(messages.len(), 4);
        }
        other => panic!("unexpected action {:?}", other),
    }
}

#[test]
fn run_without_fragments_sends_an_empty_user_message() {
    let (stage, _) = launch(args(&[]), env());
    let (_, action) = step(stage, Event::HistoryRead { loaded: None });
    assert_eq!(action, Action::Send { messages: vec![Message::user(s(""))] });
}

#[test]
fn run_aborts_on_a_response_without_reply_or_body() {
    let (stage, _) = launch(args(&[]), env());
    let (stage, _) = step(stage, Event::HistoryRead { loaded: None });
    let (_, action) = step(stage.clone(), Event::Replied { choices: vec![] });
    assert_eq!(action, Action::Abort { failure: Failure::NoReply });
    let bodiless = Message { role: Role::Assistant, content: None, name: None, function_call: None };
    let (over, action) = step(stage, Event::Replied { choices: vec![bodiless] });
    assert_eq!(action, Action::Abort { failure: Failure::NoReplyBody });
    assert_eq!(over, Stage::Over);
}

#[test]
fn run_refuses_events_out_of_turn() {
    let (stage, _) = launch(args(&["m"]), env());
    let kept = config_of(&stage);
    assert_eq!(kept.history_path, s("/tmp/h.json"));
    let (stage, action) = step(stage, Event::TextRead { read: None });
    assert_eq!(stage, Stage::Over);
    assert_eq!(action, Action::Abort { failure: Failure::OutOfTurn });

    let (stage, _) = launch(args(&["m"]), env());
    let (stage, _) = step(stage, Event::HistoryRead { loaded: None });
    let (_, action) = step(stage, Event::HistoryRead { loaded: None });
    assert_eq!(action, Action::Abort { failure: Failure::OutOfTurn });

    let stale = Stage::FragmentWanted {
        config: kept,
        history: History::start(None),
        resolved: vec![s("m")],
    };
    let (_, action) = step(stale, Event::TextRead { read: None });
    assert_eq!(action, Action::Abort { failure: Failure::OutOfTurn });
}

#[test]
fn run_fails_where_the_loaded_current_conversation_is_missing() {
    let (stage, _) = launch(args(&["m"]), env());
    let (stage, action) = step(stage, Event::HistoryRead { loaded: Some(stored(2, 6)) });
    assert_eq!(stage, Stage::Over);
    assert_eq!(action, Action::Abort { failure: Failure::UnknownConversation(6) });
}
