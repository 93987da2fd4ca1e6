//! The steps of one run around the call to the completion service.

use crate::failure::Failure;
use crate::history::{started, History, HistoryView};
use crate::message::{messages_view, plain_message, text_view, Message, MessageView, Role};
use vstd::prelude::*;

verus! {

/// The view of a history that may be absent.
pub open spec fn loaded_view(loaded: Option<History>) -> Option<HistoryView> {
    match loaded {
        Some(h) => Some(h@),
        None => None,
    }
}

/// Whether a run opens a conversation: when asked to, or when there is no history yet.
pub open spec fn opens(new: bool, loaded: Option<HistoryView>) -> bool {
    new || loaded is None
}

/// The history with which a run goes on.
pub open spec fn prepared(loaded: Option<HistoryView>, new: bool, system: Option<Seq<char>>) -> HistoryView {
    match loaded {
        None => started(system),
        Some(h) => if new {
            h.opened(h.next_id() as i64, system)
        } else {
            h
        },
    }
}

/// The reply among the choices of a response: the first one, which must
/// carry a textual body.
pub open spec fn reply_of(choices: Seq<MessageView>) -> Result<MessageView, Failure> {
    if choices.len() == 0 {
        Err(Failure::NoReply)
    } else if choices[0].content is None {
        Err(Failure::NoReplyBody)
    } else {
        Ok(choices[0])
    }
}

/// What an exchange comes to: the new history and the text to print, or the
/// reason why nothing is recorded.
pub open spec fn completed(h: HistoryView, content: Seq<char>, choices: Seq<MessageView>) -> Result<
    (HistoryView, Seq<char>),
    Failure,
> {
    match reply_of(choices) {
        Err(e) => Err(e),
        Ok(reply) => if h.has(h.current_conversation_id) {
            Ok((h.exchanged(content, reply), reply.content->Some_0))
        } else {
            Err(Failure::UnknownConversation(h.current_conversation_id))
        },
    }
}

/// Says whether this run opens a conversation, and so whether the system
/// prompt has to be resolved.
pub fn starts_conversation(new: bool, loaded: &Option<History>) -> (yes: bool)
    ensures
        yes == opens(new, loaded_view(*loaded)),
{
    new || loaded.is_none()
}

/// Gets the history ready: with no history yet, the one of a first run;
/// when a new conversation is asked for, the loaded one with that
/// conversation opened; else the loaded one as it is. The system prompt
/// seeds only a conversation opened here.
pub fn prepare(loaded: Option<History>, new: bool, system: Option<String>) -> (out: History)
    requires
        new && loaded is Some ==> loaded->Some_0@.count() <= i64::MAX,
    ensures
        out@ == prepared(loaded_view(loaded), new, text_view(system)),
        !opens(new, loaded_view(loaded)) ==> Some(out) == loaded,
{
    match loaded {
        None => History::start(system),
        Some(history) => {
            let mut history = history;
            if new {
                history.open_conversation(system);
            }
            history
        },
    }
}

/// The reply of the completion service: its first choice, which must carry
/// a textual body.
pub fn first_reply(choices: &Vec<Message>) -> (result: Result<Message, Failure>)
    ensures
        match result {
            Ok(reply) => reply_of(messages_view(choices@)) == Ok::<MessageView, Failure>(reply@),
            Err(e) => reply_of(messages_view(choices@)) == Err::<MessageView, Failure>(e),
        },
{
    if choices.len() == 0 {
        return Err(Failure::NoReply);
    }
    let reply = choices[0].copy();
    if reply.content.is_none() {
        return Err(Failure::NoReplyBody);
    }
    Ok(reply)
}

/// Finishes a run: takes the first choice as the reply, records the user
/// message and the reply in the current conversation, and returns the
/// reply's text. On any failure the history is left as it was.
pub fn complete(history: &mut History, content: String, choices: &Vec<Message>) -> (result: Result<
    String,
    Failure,
>)
    ensures
        match completed(old(history)@, content@, messages_view(choices@)) {
            Ok((after, body)) => {
                &&& result is Ok
                &&& result->Ok_0@ == body
                &&& final(history)@ == after
            },
            Err(e) => result == Err::<String, Failure>(e) && *final(history) == *old(history),
        },
{
    let reply = match first_reply(choices) {
        Ok(reply) => reply,
        Err(e) => {
            return Err(e);
        },
    };
    let body = match &reply.content {
        Some(text) => text.clone(),
        None => {
            return Err(Failure::NoReplyBody);
        },
    };
    match history.record_exchange(content, reply) {
        Ok(_) => Ok(body),
        Err(e) => Err(e),
    }
}

/// A first run with no system prompt ends with a history of one conversation,
/// with id 0 and current, that holds the user message and then the reply.
pub proof fn lemma_first_exchange(new: bool, content: Seq<char>, reply: MessageView)
    ensures
        ({
            let h = prepared(None, new, None).exchanged(content, reply);
            &&& h.current_conversation_id == 0
            &&& h.conversations.dom() == set![0i64]
            &&& h.conversations[0].id == 0
            &&& h.conversations[0].messages == seq![plain_message(Role::User, content), reply]
        }),
{
    let h = prepared(None, new, None).exchanged(content, reply);
    assert(h.conversations.dom() =~= set![0i64]);
    assert(h.conversations[0].messages =~= seq![plain_message(Role::User, content), reply]);
}

} // verus!
