//! The persisted state: conversations by id, and which one is current.

use crate::failure::Failure;
use crate::message::{copy_messages, messages_view, plain_message, text_view};
use crate::message::{Message, MessageView, Role};
use std::collections::HashMap;
use vstd::prelude::*;

verus! {

broadcast use vstd::std_specs::hash::group_hash_axioms;

/// An ordered sequence of messages under an integer id.
#[derive(Clone, Debug, PartialEq, Eq)]
pub struct Conversation {
    pub id: i64,
    pub messages: Vec<Message>,
}

/// What a `Conversation` holds.
pub struct ConversationView {
    pub id: i64,
    pub messages: Seq<MessageView>,
}

/// All conversations, and the id of the current one.
#[derive(Clone, Debug, PartialEq, Eq)]
pub struct History {
    pub current_conversation_id: i64,
    pub conversations: HashMap<i64, Conversation>,
}

/// What a `History` holds.
pub struct HistoryView {
    pub current_conversation_id: i64,
    pub conversations: Map<i64, ConversationView>,
}

impl View for Conversation {
    type V = ConversationView;

    open spec fn view(&self) -> ConversationView {
        ConversationView { id: self.id, messages: messages_view(self.messages@) }
    }
}

impl View for History {
    type V = HistoryView;

    open spec fn view(&self) -> HistoryView {
        HistoryView {
            current_conversation_id: self.current_conversation_id,
            conversations: self.conversations@.map_values(|c: Conversation| c@),
        }
    }
}

/// The messages with which a conversation begins: the system prompt, if there is one.
pub open spec fn seed(system: Option<Seq<char>>) -> Seq<MessageView> {
    match system {
        Some(text) => seq![plain_message(Role::System, text)],
        None => Seq::empty(),
    }
}

/// A fresh conversation under `id`.
pub open spec fn fresh(id: i64, system: Option<Seq<char>>) -> ConversationView {
    ConversationView { id, messages: seed(system) }
}

/// The history of a first run: conversation 0 alone, and current.
pub open spec fn started(system: Option<Seq<char>>) -> HistoryView {
    HistoryView {
        current_conversation_id: 0,
        conversations: Map::empty().insert(0i64, fresh(0, system)),
    }
}

impl HistoryView {
    /// Whether a conversation with this id exists.
    pub open spec fn has(self, id: i64) -> bool {
        self.conversations.contains_key(id)
    }

    /// The number of conversations.
    pub open spec fn count(self) -> nat {
        self.conversations.dom().len()
    }

    /// The id that the next new conversation gets: the number of conversations.
    pub open spec fn next_id(self) -> int {
        self.count() as int
    }

    /// The ids in use are exactly 0, 1, .. up to the number of conversations.
    pub open spec fn sequential(self) -> bool {
        forall|id: i64| self.has(id) <==> 0 <= id < self.count()
    }

    /// Every conversation carries the id under which it is kept.
    pub open spec fn keyed(self) -> bool {
        forall|id: i64| self.has(id) ==> (#[trigger] self.conversations[id]).id == id
    }

    /// The current conversation exists, and every conversation carries the
    /// id under which it is kept.
    pub open spec fn well_formed(self) -> bool {
        self.has(self.current_conversation_id) && self.keyed()
    }

    /// The conversation that is current. Meaningful where it exists.
    pub open spec fn active(self) -> ConversationView {
        self.conversations[self.current_conversation_id]
    }

    /// The id that a selector picks: its own, or the current one.
    pub open spec fn target(self, selector: Option<i64>) -> i64 {
        match selector {
            Some(id) => id,
            None => self.current_conversation_id,
        }
    }

    /// The history with a fresh conversation under `id`, made current.
    pub open spec fn opened(self, id: i64, system: Option<Seq<char>>) -> HistoryView {
        HistoryView {
            current_conversation_id: id,
            conversations: self.conversations.insert(id, fresh(id, system)),
        }
    }

    /// The history with `id` made current.
    pub open spec fn selected(self, id: i64) -> HistoryView {
        HistoryView { current_conversation_id: id, conversations: self.conversations }
    }

    /// What is sent to the completion service: the current conversation's
    /// messages, then the new user message.
    pub open spec fn request(self, content: Seq<char>) -> Seq<MessageView> {
        self.active().messages.push(plain_message(Role::User, content))
    }

    /// The history after one exchange: the current conversation grows by the
    /// user message and the reply, in that order; nothing else changes.
    pub open spec fn exchanged(self, content: Seq<char>, reply: MessageView) -> HistoryView {
        HistoryView {
            current_conversation_id: self.current_conversation_id,
            conversations: self.conversations.insert(
                self.current_conversation_id,
                ConversationView {
                    id: self.active().id,
                    messages: self.request(content).push(reply),
                },
            ),
        }
    }
}

impl Conversation {
    /// A conversation under `id` that holds the system prompt, if one is given.
    pub fn new(id: i64, system: Option<String>) -> (out: Conversation)
        ensures
            out@ == fresh(id, text_view(system)),
    {
        let mut messages: Vec<Message> = Vec::new();
        match system {
            Some(text) => {
                messages.push(Message::system(text));
            },
            None => {},
        }
        let out = Conversation { id, messages };
        assert(out@.messages =~= seed(text_view(system)));
        out
    }

    /// A copy with the same id and messages.
    pub fn copy(&self) -> (out: Conversation)
        ensures
            out@ == self@,
    {
        Conversation { id: self.id, messages: copy_messages(&self.messages) }
    }
}

impl History {
    /// The history of a first run: conversation 0, seeded with the system
    /// prompt if one is given, and current.
    pub fn start(system: Option<String>) -> (out: History)
        ensures
            out@ == started(text_view(system)),
            out@.well_formed(),
            out@.sequential(),
    {
        let conversation = Conversation::new(0, system);
        let mut conversations: HashMap<i64, Conversation> = HashMap::new();
        conversations.insert(0, conversation);
        let out = History { current_conversation_id: 0, conversations };
        proof {
            assert(out@.conversations =~= started(text_view(system)).conversations);
            lemma_started_sequential(text_view(system));
        }
        out
    }

    /// The number of conversations.
    pub fn count(&self) -> (n: usize)
        ensures
            n == self@.count(),
    {
        proof {
            assert(self@.conversations.dom() =~= self.conversations@.dom());
        }
        self.conversations.len()
    }

    /// Whether the number of conversations can still serve as an id.
    pub fn has_room(&self) -> (yes: bool)
        ensures
            yes == (self@.count() <= i64::MAX),
    {
        self.count() as u64 <= 0x7fff_ffff_ffff_ffffu64
    }

    /// Opens a new conversation, seeded with the system prompt if one is
    /// given, and makes it current. Its id is the number of conversations
    /// before the call; a conversation that already has that id is replaced.
    pub fn open_conversation(&mut self, system: Option<String>)
        requires
            old(self)@.count() <= i64::MAX,
        ensures
            final(self)@ == old(self)@.opened(old(self)@.next_id() as i64, text_view(system)),
            final(self)@.current_conversation_id == old(self)@.count(),
            old(self)@.keyed() ==> final(self)@.well_formed(),
            old(self)@.sequential() ==> final(self)@.sequential(),
    {
        let id: i64 = self.count() as i64;
        let conversation = Conversation::new(id, system);
        self.current_conversation_id = id;
        self.conversations.insert(id, conversation);
        proof {
            let expected = old(self)@.opened(id, text_view(system));
            assert(self@.conversations =~= expected.conversations);
            assert(old(self)@.conversations.dom() =~= old(self).conversations@.dom());
            if old(self)@.keyed() {
                lemma_opened_well_formed(old(self)@, id, text_view(system));
            }
            if old(self)@.sequential() {
                lemma_opened_sequential(old(self)@, text_view(system));
            }
        }
    }

    /// Whether a conversation with this id exists.
    pub fn has(&self, id: i64) -> (found: bool)
        ensures
            found == self@.has(id),
    {
        self.conversations.contains_key(&id)
    }

    /// Makes the selected conversation current: the one the selector names,
    /// or the one that is current already. Fails, and changes nothing, where
    /// no conversation has that id.
    pub fn select(&mut self, selector: Option<i64>) -> (result: Result<(), Failure>)
        ensures
            match result {
                Ok(_) => {
                    &&& old(self)@.has(old(self)@.target(selector))
                    &&& final(self)@ == old(self)@.selected(old(self)@.target(selector))
                },
                Err(e) => {
                    &&& !old(self)@.has(old(self)@.target(selector))
                    &&& e == Failure::UnknownConversation(old(self)@.target(selector))
                    &&& *final(self) == *old(self)
                },
            },
    {
        let id: i64 = match selector {
            Some(id) => id,
            None => self.current_conversation_id,
        };
        if self.has(id) {
            self.current_conversation_id = id;
            Ok(())
        } else {
            Err(Failure::UnknownConversation(id))
        }
    }

    /// The current conversation, if it exists.
    pub fn active(&self) -> (found: Option<&Conversation>)
        ensures
            match found {
                Some(c) => self@.has(self@.current_conversation_id) && c@ == self@.active(),
                None => !self@.has(self@.current_conversation_id),
            },
    {
        self.conversations.get(&self.current_conversation_id)
    }

    /// The messages to send: a copy of the current conversation's messages,
    /// followed by a user message with the given content. Fails where the
    /// current conversation does not exist.
    pub fn request_messages(&self, content: &String) -> (result: Result<Vec<Message>, Failure>)
        ensures
            match result {
                Ok(list) => {
                    &&& self@.has(self@.current_conversation_id)
                    &&& messages_view(list@) == self@.request(content@)
                },
                Err(e) => {
                    &&& !self@.has(self@.current_conversation_id)
                    &&& e == Failure::UnknownConversation(self@.current_conversation_id)
                },
            },
    {
        match self.active() {
            Some(conversation) => {
                let mut list = copy_messages(&conversation.messages);
                let ghost before = list@;
                list.push(Message::user(content.clone()));
                assert(messages_view(list@) =~= messages_view(before).push(
                    plain_message(Role::User, content@),
                ));
                Ok(list)
            },
            None => Err(Failure::UnknownConversation(self.current_conversation_id)),
        }
    }

    /// Records one exchange in the current conversation: the user message
    /// with the given content, then the reply. Fails, and changes nothing,
    /// where the current conversation does not exist.
    pub fn record_exchange(&mut self, content: String, reply: Message) -> (result: Result<
        (),
        Failure,
    >)
        ensures
            match result {
                Ok(_) => {
                    &&& old(self)@.has(old(self)@.current_conversation_id)
                    &&& final(self)@ == old(self)@.exchanged(content@, reply@)
                },
                Err(e) => {
                    &&& !old(self)@.has(old(self)@.current_conversation_id)
                    &&& e == Failure::UnknownConversation(old(self)@.current_conversation_id)
                    &&& *final(self) == *old(self)
                },
            },
    {
        let id: i64 = self.current_conversation_id;
        if !self.has(id) {
            return Err(Failure::UnknownConversation(id));
        }
        match self.conversations.remove(&id) {
            Some(conversation) => {
                let mut conversation = conversation;
                let ghost before = conversation@;
                conversation.messages.push(Message::user(content));
                conversation.messages.push(reply);
                proof {
                    assert(conversation@.messages =~= before.messages.push(
                        plain_message(Role::User, content@),
                    ).push(reply@));
                }
                self.conversations.insert(id, conversation);
                proof {
                    let expected = old(self)@.exchanged(content@, reply@);
                    assert(self@.conversations =~= expected.conversations);
                }
                Ok(())
            },
            None => Err(Failure::UnknownConversation(id)),
        }
    }
}

/// A fresh conversation holds at most one message, and that one is the
/// system prompt: a system message comes first or not at all.
pub proof fn lemma_fresh_shape(id: i64, system: Option<Seq<char>>)
    ensures
        fresh(id, system).id == id,
        system is None ==> fresh(id, system).messages.len() == 0,
        system is Some ==> fresh(id, system).messages.len() == 1 && fresh(id, system).messages[0]
            == plain_message(Role::System, system->Some_0),
{
}

/// Opening a conversation yields a well-formed history where every
/// conversation carried its own id before.
pub proof fn lemma_opened_well_formed(h: HistoryView, id: i64, system: Option<Seq<char>>)
    requires
        h.keyed(),
    ensures
        h.opened(id, system).well_formed(),
{
}

/// Selecting a conversation that exists keeps a history well-formed, and
/// selecting the current one changes nothing.
pub proof fn lemma_selected_well_formed(h: HistoryView, selector: Option<i64>)
    requires
        h.keyed(),
        h.has(h.target(selector)),
    ensures
        h.selected(h.target(selector)).well_formed(),
        h.selected(h.target(None)) == h,
{
}

/// An exchange keeps a history well-formed.
pub proof fn lemma_exchanged_well_formed(h: HistoryView, content: Seq<char>, reply: MessageView)
    requires
        h.well_formed(),
    ensures
        h.exchanged(content, reply).well_formed(),
{
}

/// The history of a first run is well-formed and uses the ids from 0 on.
pub proof fn lemma_started_sequential(system: Option<Seq<char>>)
    ensures
        started(system).well_formed(),
        started(system).sequential(),
        started(system).count() == 1,
        started(system).has(0),
{
    let h = started(system);
    assert(h.conversations.dom() =~= set![0i64]);
}

/// Opening a conversation in a history whose ids are 0, 1, .. keeps them so.
pub proof fn lemma_opened_sequential(h: HistoryView, system: Option<Seq<char>>)
    requires
        h.conversations.dom().finite(),
        h.sequential(),
        h.count() <= i64::MAX,
    ensures
        !h.has(h.next_id() as i64),
        h.opened(h.next_id() as i64, system).sequential(),
        h.opened(h.next_id() as i64, system).count() == h.count() + 1,
{
    let id = h.next_id() as i64;
    let g = h.opened(id, system);
    assert(!h.has(id));
    assert(g.conversations.dom() =~= h.conversations.dom().insert(id));
    assert(g.count() == h.count() + 1);
    assert forall|k: i64| g.has(k) <==> 0 <= k < g.count() by {
        assert(g.has(k) <==> h.has(k) || k == id);
    }
}

/// A new conversation gets the number of conversations as its id. Where no
/// conversation had that id, none is replaced: each earlier conversation is
/// still there, unchanged and under its own id, and there is one more.
pub proof fn lemma_open_keeps_earlier(h: HistoryView, system: Option<Seq<char>>)
    requires
        h.conversations.dom().finite(),
        h.count() <= i64::MAX,
        !h.has(h.next_id() as i64),
    ensures
        ({
            let g = h.opened(h.next_id() as i64, system);
            &&& g.current_conversation_id == h.count()
            &&& g.active() == fresh(h.next_id() as i64, system)
            &&& g.count() == h.count() + 1
            &&& forall|id: i64|
                h.has(id) ==> id != g.current_conversation_id && g.has(id)
                    && g.conversations[id] == h.conversations[id]
        }),
{
    let id = h.next_id() as i64;
    let g = h.opened(id, system);
    assert(g.conversations.dom() =~= h.conversations.dom().insert(id));
}

/// After an exchange the current conversation ends with the user message and
/// then the reply; what it held before is its beginning, the current id is the
/// same, and every other conversation is untouched.
pub proof fn lemma_exchange_tail(h: HistoryView, content: Seq<char>, reply: MessageView)
    requires
        h.has(h.current_conversation_id),
    ensures
        ({
            let g = h.exchanged(content, reply);
            let before = h.active().messages;
            let after = g.active().messages;
            &&& g.current_conversation_id == h.current_conversation_id
            &&& g.has(g.current_conversation_id)
            &&& after.len() == before.len() + 2
            &&& after.subrange(0, before.len() as int) == before
            &&& after[after.len() - 2] == plain_message(Role::User, content)
            &&& after[after.len() - 1] == reply
            &&& g.active().id == h.active().id
            &&& g.conversations.dom() == h.conversations.dom()
            &&& forall|id: i64|
                h.has(id) && id != h.current_conversation_id ==> g.conversations[id]
                    == h.conversations[id]
        }),
{
    let g = h.exchanged(content, reply);
    let before = h.active().messages;
    let after = g.active().messages;
    assert(after.subrange(0, before.len() as int) =~= before);
    assert(g.conversations.dom() =~= h.conversations.dom());
}

} // verus!
