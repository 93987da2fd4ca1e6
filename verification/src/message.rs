//! Role-tagged chat messages and their mathematical views.

use vstd::prelude::*;

verus! {

/// Who authored a message.
#[derive(Clone, Copy, Debug, PartialEq, Eq, Structural)]
pub enum Role {
    System,
    User,
    Assistant,
    Function,
}

/// A function call that the model asks for in place of a textual body.
#[derive(Clone, Debug, PartialEq, Eq)]
pub struct FunctionCall {
    pub name: String,
    pub arguments: String,
}

/// What a `FunctionCall` holds, as sequences of characters.
pub struct FunctionCallView {
    pub name: Seq<char>,
    pub arguments: Seq<char>,
}

/// One message of a conversation.
#[derive(Clone, Debug, PartialEq, Eq)]
pub struct Message {
    pub role: Role,
    pub content: Option<String>,
    pub name: Option<String>,
    pub function_call: Option<FunctionCall>,
}

/// What a `Message` holds, as sequences of characters.
pub struct MessageView {
    pub role: Role,
    pub content: Option<Seq<char>>,
    pub name: Option<Seq<char>>,
    pub function_call: Option<FunctionCallView>,
}

/// The characters of an optional text.
pub open spec fn text_view(text: Option<String>) -> Option<Seq<char>> {
    match text {
        Some(t) => Some(t@),
        None => None,
    }
}

/// The view of an optional function call.
pub open spec fn call_view(call: Option<FunctionCall>) -> Option<FunctionCallView> {
    match call {
        Some(c) => Some(c@),
        None => None,
    }
}

/// A message with the given role and body, without name or function call.
pub open spec fn plain_message(role: Role, content: Seq<char>) -> MessageView {
    MessageView { role, content: Some(content), name: None, function_call: None }
}

/// The views of a sequence of messages, in order.
pub open spec fn messages_view(messages: Seq<Message>) -> Seq<MessageView> {
    Seq::new(messages.len(), |i: int| messages[i]@)
}

impl View for FunctionCall {
    type V = FunctionCallView;

    open spec fn view(&self) -> FunctionCallView {
        FunctionCallView { name: self.name@, arguments: self.arguments@ }
    }
}

impl View for Message {
    type V = MessageView;

    open spec fn view(&self) -> MessageView {
        MessageView {
            role: self.role,
            content: text_view(self.content),
            name: text_view(self.name),
            function_call: call_view(self.function_call),
        }
    }
}

/// A copy of an optional text.
pub fn copy_text(text: &Option<String>) -> (out: Option<String>)
    ensures
        text_view(out) == text_view(*text),
{
    match text {
        Some(t) => Some(t.clone()),
        None => None,
    }
}

impl FunctionCall {
    /// A copy with the same name and arguments.
    pub fn copy(&self) -> (out: FunctionCall)
        ensures
            out@ == self@,
    {
        FunctionCall { name: self.name.clone(), arguments: self.arguments.clone() }
    }
}

impl Message {
    /// A system message with the given body.
    pub fn system(content: String) -> (out: Message)
        ensures
            out@ == plain_message(Role::System, content@),
    {
        Message { role: Role::System, content: Some(content), name: None, function_call: None }
    }

    /// A user message with the given body.
    pub fn user(content: String) -> (out: Message)
        ensures
            out@ == plain_message(Role::User, content@),
    {
        Message { role: Role::User, content: Some(content), name: None, function_call: None }
    }

    /// A copy with the same role, body, name and function call.
    pub fn copy(&self) -> (out: Message)
        ensures
            out@ == self@,
    {
        let function_call = match &self.function_call {
            Some(c) => Some(c.copy()),
            None => None,
        };
        Message {
            role: self.role,
            content: copy_text(&self.content),
            name: copy_text(&self.name),
            function_call,
        }
    }
}

/// A copy of a list of messages, in the same order.
pub fn copy_messages(messages: &Vec<Message>) -> (out: Vec<Message>)
    ensures
        messages_view(out@) == messages_view(messages@),
{
    let mut out: Vec<Message> = Vec::new();
    let mut i: usize = 0;
    while i < messages.len()
        invariant
            i <= messages.len(),
            out.len() == i,
            forall|j: int| 0 <= j < i ==> out[j]@ == messages[j]@,
        decreases messages.len() - i,
    {
        out.push(messages[i].copy());
        i += 1;
    }
    assert(messages_view(out@) =~= messages_view(messages@));
    out
}

} // verus!
