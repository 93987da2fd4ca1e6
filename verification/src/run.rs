//! A whole run as a state machine.
//!
//! The library decides; the caller acts. Each step takes what the caller
//! read or received and answers with the next thing to do: read the history
//! file, read a text argument, send the messages, or print the reply and
//! write the history. The history is handed out for writing only after a
//! complete exchange; every failure ends the run with nothing to write.

use crate::config::{conflicting, effective, resolve, Args, Config, ConfigView, Environment};
use crate::failure::Failure;
use crate::history::{fresh, lemma_started_sequential, started};
use crate::history::{ConversationView, History, HistoryView};
use crate::input::{join_fragments, joined, resolve_text, resolved_text, stdin_marker};
use crate::input::{text_source, texts_view, TextSource};
use crate::message::{messages_view, plain_message, text_view};
use crate::message::{Message, MessageView, Role};
use crate::turn::{complete, completed, loaded_view, opens, prepare, prepared};
use crate::turn::starts_conversation;
use vstd::prelude::*;

verus! {

/// Where a run stands.
#[derive(Clone, Debug, PartialEq, Eq)]
pub enum Stage {
    /// The history file is being read.
    HistoryWanted { config: Config },
    /// The system prompt `arg` is being read, for the conversation to open.
    SystemWanted { config: Config, loaded: Option<History>, arg: String },
    /// The conversation is ready; the fragment after those in `resolved` is being read.
    FragmentWanted { config: Config, history: History, resolved: Vec<String> },
    /// The messages were sent; the reply is awaited.
    ReplyWanted { config: Config, history: History, content: String },
    /// The run has ended.
    Over,
}

/// What the caller hands back after acting.
#[derive(Clone, Debug, PartialEq, Eq)]
pub enum Event {
    /// The history file's content, or none if there is no file.
    HistoryRead { loaded: Option<History> },
    /// What was read for a text argument: standard input, or the file it
    /// names, or none if it names no file.
    TextRead { read: Option<String> },
    /// The messages of the choices in the service's response, in order.
    Replied { choices: Vec<Message> },
}

/// What the caller is to do next.
#[derive(Clone, Debug, PartialEq, Eq)]
pub enum Action {
    /// Read the history file at `path`, if it exists.
    ReadHistory { path: String },
    /// Read the content of `arg` from `source`.
    ReadText { arg: String, source: TextSource },
    /// Send these messages to the completion service.
    Send { messages: Vec<Message> },
    /// Print `reply`, write `history` to `path`, and exit.
    Persist { path: String, history: History, reply: String },
    /// Give up, writing nothing.
    Abort { failure: Failure },
}

/// What a `Stage` holds.
pub enum StageView {
    HistoryWanted { config: ConfigView },
    SystemWanted { config: ConfigView, loaded: Option<HistoryView>, arg: Seq<char> },
    FragmentWanted { config: ConfigView, history: HistoryView, resolved: Seq<Seq<char>> },
    ReplyWanted { config: ConfigView, history: HistoryView, content: Seq<char> },
    Over,
}

/// What an `Event` holds.
pub enum EventView {
    HistoryRead { loaded: Option<HistoryView> },
    TextRead { read: Option<Seq<char>> },
    Replied { choices: Seq<MessageView> },
}

/// What an `Action` holds.
pub enum ActionView {
    ReadHistory { path: Seq<char> },
    ReadText { arg: Seq<char>, source: TextSource },
    Send { messages: Seq<MessageView> },
    Persist { path: Seq<char>, history: HistoryView, reply: Seq<char> },
    Abort { failure: Failure },
}

impl View for Stage {
    type V = StageView;

    open spec fn view(&self) -> StageView {
        match *self {
            Stage::HistoryWanted { config } => StageView::HistoryWanted { config: config@ },
            Stage::SystemWanted { config, loaded, arg } => StageView::SystemWanted {
                config: config@,
                loaded: loaded_view(loaded),
                arg: arg@,
            },
            Stage::FragmentWanted { config, history, resolved } => StageView::FragmentWanted {
                config: config@,
                history: history@,
                resolved: texts_view(resolved@),
            },
            Stage::ReplyWanted { config, history, content } => StageView::ReplyWanted {
                config: config@,
                history: history@,
                content: content@,
            },
            Stage::Over => StageView::Over,
        }
    }
}

impl View for Event {
    type V = EventView;

    open spec fn view(&self) -> EventView {
        match *self {
            Event::HistoryRead { loaded } => EventView::HistoryRead { loaded: loaded_view(loaded) },
            Event::TextRead { read } => EventView::TextRead { read: text_view(read) },
            Event::Replied { choices } => EventView::Replied { choices: messages_view(choices@) },
        }
    }
}

impl View for Action {
    type V = ActionView;

    open spec fn view(&self) -> ActionView {
        match *self {
            Action::ReadHistory { path } => ActionView::ReadHistory { path: path@ },
            Action::ReadText { arg, source } => ActionView::ReadText { arg: arg@, source },
            Action::Send { messages } => ActionView::Send { messages: messages_view(messages@) },
            Action::Persist { path, history, reply } => ActionView::Persist {
                path: path@,
                history: history@,
                reply: reply@,
            },
            Action::Abort { failure } => ActionView::Abort { failure },
        }
    }
}

/// The end of a run that failed.
pub open spec fn aborted(failure: Failure) -> (StageView, ActionView) {
    (StageView::Over, ActionView::Abort { failure })
}

/// The request to read a text argument.
pub open spec fn reading(arg: Seq<char>) -> ActionView {
    ActionView::ReadText {
        arg,
        source: if arg == stdin_marker() {
            TextSource::Stdin
        } else {
            TextSource::FileOrLiteral
        },
    }
}

/// The first step: with conflicting flags the run ends at once; else the
/// history file at the path in effect is wanted.
pub open spec fn first(args: Args, env: Environment) -> (StageView, ActionView) {
    if conflicting(args) {
        aborted(Failure::ConflictingSelection)
    } else {
        (
            StageView::HistoryWanted { config: effective(args, env) },
            ActionView::ReadHistory { path: effective(args, env).history_path },
        )
    }
}

/// With the conversation selected: the next fragment is wanted, or, when all
/// are resolved, the joined message is sent after the conversation's messages.
pub open spec fn gather(config: ConfigView, history: HistoryView, resolved: Seq<Seq<char>>) -> (
    StageView,
    ActionView,
) {
    if resolved.len() < config.messages.len() {
        (
            StageView::FragmentWanted { config, history, resolved },
            reading(config.messages[resolved.len() as int]),
        )
    } else if history.has(history.current_conversation_id) {
        (
            StageView::ReplyWanted { config, history, content: joined(resolved) },
            ActionView::Send { messages: history.request(joined(resolved)) },
        )
    } else {
        aborted(Failure::UnknownConversation(history.current_conversation_id))
    }
}

/// With what was loaded and the system prompt's text: the conversation is
/// opened if one is to be, then the selector is obeyed, and the fragments follow.
pub open spec fn ready(config: ConfigView, loaded: Option<HistoryView>, system: Option<Seq<char>>) -> (
    StageView,
    ActionView,
) {
    if config.new && loaded is Some && loaded->Some_0.count() > i64::MAX {
        aborted(Failure::HistoryFull)
    } else {
        let history = prepared(loaded, config.new, system);
        let id = history.target(config.conversation);
        if history.has(id) {
            gather(config, history.selected(id), Seq::empty())
        } else {
            aborted(Failure::UnknownConversation(id))
        }
    }
}

/// The transition of the machine.
pub open spec fn next(stage: StageView, event: EventView) -> (StageView, ActionView) {
    match (stage, event) {
        (StageView::HistoryWanted { config }, EventView::HistoryRead { loaded }) => {
            if opens(config.new, loaded) && config.system is Some {
                (
                    StageView::SystemWanted { config, loaded, arg: config.system->Some_0 },
                    reading(config.system->Some_0),
                )
            } else {
                ready(config, loaded, None)
            }
        },
        (StageView::SystemWanted { config, loaded, arg }, EventView::TextRead { read }) => {
            ready(config, loaded, Some(resolved_text(arg, read)))
        },
        (StageView::FragmentWanted { config, history, resolved }, EventView::TextRead { read }) => {
            if resolved.len() < config.messages.len() {
                gather(
                    config,
                    history,
                    resolved.push(resolved_text(config.messages[resolved.len() as int], read)),
                )
            } else {
                aborted(Failure::OutOfTurn)
            }
        },
        (StageView::ReplyWanted { config, history, content }, EventView::Replied { choices }) => {
            match completed(history, content, choices) {
                Ok((after, body)) => (
                    StageView::Over,
                    ActionView::Persist { path: config.history_path, history: after, reply: body },
                ),
                Err(failure) => aborted(failure),
            }
        },
        _ => aborted(Failure::OutOfTurn),
    }
}

/// The stage that a run reaches from `stage` through the events, in order.
pub open spec fn reached(stage: StageView, events: Seq<EventView>) -> StageView
    decreases events.len(),
{
    if events.len() == 0 {
        stage
    } else {
        next(reached(stage, events.drop_last()), events.last()).0
    }
}

fn abort(failure: Failure) -> (out: (Stage, Action))
    ensures
        (out.0@, out.1@) == aborted(failure),
{
    (Stage::Over, Action::Abort { failure })
}

fn read_action(arg: &String) -> (action: Action)
    ensures
        action@ == reading(arg@),
{
    let source = text_source(arg);
    Action::ReadText { arg: arg.clone(), source }
}

fn gather_next(config: Config, history: History, resolved: Vec<String>) -> (out: (Stage, Action))
    ensures
        (out.0@, out.1@) == gather(config@, history@, texts_view(resolved@)),
{
    if resolved.len() < config.messages.len() {
        let action = read_action(&config.messages[resolved.len()]);
        (Stage::FragmentWanted { config, history, resolved }, action)
    } else {
        let content = join_fragments(&resolved);
        match history.request_messages(&content) {
            Ok(messages) => (Stage::ReplyWanted { config, history, content }, Action::Send { messages }),
            Err(failure) => abort(failure),
        }
    }
}

fn ready_next(config: Config, loaded: Option<History>, system: Option<String>) -> (out: (
    Stage,
    Action,
))
    ensures
        (out.0@, out.1@) == ready(config@, loaded_view(loaded), text_view(system)),
{
    if config.new {
        match &loaded {
            Some(history) => {
                if !history.has_room() {
                    return abort(Failure::HistoryFull);
                }
            },
            None => {},
        }
    }
    let mut history = prepare(loaded, config.new, system);
    match history.select(config.conversation) {
        Ok(_) => {
            let resolved: Vec<String> = Vec::new();
            assert(texts_view(resolved@) =~= Seq::<Seq<char>>::empty());
            gather_next(config, history, resolved)
        },
        Err(failure) => abort(failure),
    }
}

/// Begins a run: merges flags and environment and asks for the history file.
pub fn launch(args: Args, env: Environment) -> (out: (Stage, Action))
    ensures
        (out.0@, out.1@) == first(args, env),
{
    match resolve(args, env) {
        Ok(config) => {
            let path = config.history_path.clone();
            (Stage::HistoryWanted { config }, Action::ReadHistory { path })
        },
        Err(failure) => abort(failure),
    }
}

/// Takes the run one step on: from where it stands and what the caller
/// hands back, to where it stands next and what to do.
pub fn step(stage: Stage, event: Event) -> (out: (Stage, Action))
    ensures
        (out.0@, out.1@) == next(stage@, event@),
{
    match stage {
        Stage::HistoryWanted { config } => match event {
            Event::HistoryRead { loaded } => {
                if starts_conversation(config.new, &loaded) {
                    match &config.system {
                        Some(arg) => {
                            let arg = arg.clone();
                            let action = read_action(&arg);
                            return (Stage::SystemWanted { config, loaded, arg }, action);
                        },
                        None => {},
                    }
                }
                ready_next(config, loaded, None)
            },
            _ => abort(Failure::OutOfTurn),
        },
        Stage::SystemWanted { config, loaded, arg } => match event {
            Event::TextRead { read } => {
                let text = resolve_text(arg, read);
                ready_next(config, loaded, Some(text))
            },
            _ => abort(Failure::OutOfTurn),
        },
        Stage::FragmentWanted { config, history, resolved } => match event {
            Event::TextRead { read } => {
                if resolved.len() < config.messages.len() {
                    let mut resolved = resolved;
                    let ghost before = resolved@;
                    let arg = config.messages[resolved.len()].clone();
                    let text = resolve_text(arg, read);
                    resolved.push(text);
                    assert(texts_view(resolved@) =~= texts_view(before).push(text@));
                    gather_next(config, history, resolved)
                } else {
                    abort(Failure::OutOfTurn)
                }
            },
            _ => abort(Failure::OutOfTurn),
        },
        Stage::ReplyWanted { config, history, content } => match event {
            Event::Replied { choices } => {
                let mut history = history;
                match complete(&mut history, content, &choices) {
                    Ok(reply) => (
                        Stage::Over,
                        Action::Persist { path: config.history_path, history, reply },
                    ),
                    Err(failure) => abort(failure),
                }
            },
            _ => abort(Failure::OutOfTurn),
        },
        Stage::Over => abort(Failure::OutOfTurn),
    }
}

/// Once a run has ended, every further event is refused.
pub proof fn lemma_over_is_final(event: EventView)
    ensures
        next(StageView::Over, event) == aborted(Failure::OutOfTurn),
{
}

/// A run that has ended stays so through any events, and none of them
/// brings a history to write.
pub proof fn lemma_over_forever(events: Seq<EventView>, event: EventView)
    ensures
        reached(StageView::Over, events) == StageView::Over,
        next(reached(StageView::Over, events), event) == aborted(Failure::OutOfTurn),
    decreases events.len(),
{
    if events.len() > 0 {
        lemma_over_forever(events.drop_last(), events.last());
    }
}

/// The system prompt of a conversation that a run opens is the content of
/// the file that the argument names, where the caller found one, and the
/// argument's own text where it found none.
pub proof fn lemma_system_prompt_resolution(
    config: ConfigView,
    loaded: Option<HistoryView>,
    arg: Seq<char>,
    contents: Seq<char>,
)
    ensures
        next(
            StageView::SystemWanted { config, loaded, arg },
            EventView::TextRead { read: Some(contents) },
        ) == ready(config, loaded, Some(contents)),
        next(StageView::SystemWanted { config, loaded, arg }, EventView::TextRead { read: None })
            == ready(config, loaded, Some(arg)),
{
}

/// A step that gives up ends the run: together with the lemma before, no
/// history is handed out for writing after a failure.
pub proof fn lemma_abort_ends_run(stage: StageView, event: EventView)
    requires
        next(stage, event).1 is Abort,
    ensures
        next(stage, event).0 == StageView::Over,
{
}

/// Selecting a conversation that the prepared history does not hold ends
/// the run with that failure, whatever the fragments are.
pub proof fn lemma_unknown_selection_aborts(
    config: ConfigView,
    loaded: Option<HistoryView>,
    system: Option<Seq<char>>,
)
    requires
        !(config.new && loaded is Some && loaded->Some_0.count() > i64::MAX),
        !prepared(loaded, config.new, system).has(
            prepared(loaded, config.new, system).target(config.conversation),
        ),
    ensures
        ready(config, loaded, system) == aborted(
            Failure::UnknownConversation(
                prepared(loaded, config.new, system).target(config.conversation),
            ),
        ),
{
}

/// A run that is asked for a new conversation, on a loaded history of N
/// conversations, goes on with conversation N opened, seeded and current.
pub proof fn lemma_new_conversation_takes_count(
    config: ConfigView,
    loaded: HistoryView,
    system: Option<Seq<char>>,
)
    requires
        config.new,
        config.conversation is None,
        loaded.count() <= i64::MAX,
    ensures
        ready(config, Some(loaded), system) == gather(
            config,
            loaded.opened(loaded.next_id() as i64, system),
            Seq::empty(),
        ),
        loaded.opened(loaded.next_id() as i64, system).current_conversation_id == loaded.count(),
        loaded.opened(loaded.next_id() as i64, system).active() == fresh(
            loaded.next_id() as i64,
            system,
        ),
{
    let opened = loaded.opened(loaded.next_id() as i64, system);
    assert(opened.selected(opened.current_conversation_id) == opened);
}

/// A history is handed out for writing only in answer to a reply, and then
/// it is the one from before the request with the user message and the
/// reply appended to the current conversation, which stays current. The
/// path is the configured one and the text to print is the reply's body.
pub proof fn lemma_persist_follows_exchange(stage: StageView, event: EventView)
    requires
        next(stage, event).1 is Persist,
    ensures
        stage is ReplyWanted,
        event is Replied,
        next(stage, event).0 == StageView::Over,
        ({
            let before = stage->ReplyWanted_history;
            let content = stage->ReplyWanted_content;
            let choices = event->Replied_choices;
            let written = next(stage, event).1->Persist_history;
            let old_messages = before.active().messages;
            let new_messages = written.active().messages;
            &&& choices.len() > 0
            &&& before.has(before.current_conversation_id)
            &&& written == before.exchanged(content, choices[0])
            &&& written.current_conversation_id == before.current_conversation_id
            &&& new_messages == old_messages.push(plain_message(Role::User, content)).push(
                choices[0],
            )
            &&& next(stage, event).1->Persist_path == stage->ReplyWanted_config.history_path
            &&& Some(next(stage, event).1->Persist_reply) == choices[0].content
        }),
{
}

/// A first run with one literal message and no system prompt: the message
/// is asked for, sent alone as a user message, and the history written at
/// the end holds exactly conversation 0, current, with the user message
/// followed by the reply.
pub proof fn lemma_first_run(config: ConfigView, text: Seq<char>, reply: MessageView)
    requires
        config.system is None,
        config.conversation is None,
        config.messages == seq![text],
        reply.content is Some,
    ensures
        ({
            let (s1, a1) = next(
                StageView::HistoryWanted { config },
                EventView::HistoryRead { loaded: None },
            );
            let (s2, a2) = next(s1, EventView::TextRead { read: None });
            let (s3, a3) = next(s2, EventView::Replied { choices: seq![reply] });
            &&& a1 == reading(text)
            &&& a2 == ActionView::Send { messages: seq![plain_message(Role::User, text)] }
            &&& s3 == StageView::Over
            &&& a3 == ActionView::Persist {
                path: config.history_path,
                history: HistoryView {
                    current_conversation_id: 0,
                    conversations: Map::empty().insert(
                        0i64,
                        ConversationView {
                            id: 0,
                            messages: seq![plain_message(Role::User, text), reply],
                        },
                    ),
                },
                reply: reply.content->Some_0,
            }
        }),
{
    let h0 = started(None);
    lemma_started_sequential(None);
    assert(prepared(None, config.new, None) == h0);
    assert(h0.selected(0) == h0);
    let (s1, a1) = next(StageView::HistoryWanted { config }, EventView::HistoryRead { loaded: None });
    assert(s1 == StageView::FragmentWanted { config, history: h0, resolved: Seq::empty() });
    let resolved = Seq::<Seq<char>>::empty().push(text);
    assert(resolved =~= seq![text]);
    assert(joined(resolved) == text);
    let (s2, a2) = next(s1, EventView::TextRead { read: None });
    assert(h0.request(text) =~= seq![plain_message(Role::User, text)]);
    assert(s2 == StageView::ReplyWanted { config, history: h0, content: text });
    let after = h0.exchanged(text, reply);
    assert(after.conversations =~= Map::empty().insert(
        0i64,
        ConversationView { id: 0, messages: seq![plain_message(Role::User, text), reply] },
    )) by {
        assert(h0.request(text).push(reply) =~= seq![plain_message(Role::User, text), reply]);
    }
}

} // verus!
