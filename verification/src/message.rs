//! What is sent to the model and what comes back, as plain values.

use vstd::prelude::*;
use vstd::string::*;

verus! {

/// Who speaks in a turn.
#[derive(Clone, Copy, Debug, PartialEq, Eq, Structural)]
pub enum Role {
    System,
    User,
    Assistant,
}

/// The lower-case name of a role, as a model expects it.
pub open spec fn role_name(role: Role) -> Seq<char> {
    match role {
        Role::System => "system"@,
        Role::User => "user"@,
        Role::Assistant => "assistant"@,
    }
}

impl Role {
    /// The lower-case name of this role.
    pub fn name(&self) -> (r: &'static str)
        ensures
            r@ == role_name(*self),
    {
        match self {
            Role::System => "system",
            Role::User => "user",
            Role::Assistant => "assistant",
        }
    }
}

/// One turn of a conversation.
#[derive(Clone, Debug, PartialEq, Eq)]
pub struct Message {
    pub role: Role,
    pub content: String,
}

/// The turns sent to the model in one invocation, in order.
#[derive(Clone, Debug, PartialEq, Eq)]
pub struct MessageContext {
    pub turns: Vec<Message>,
}

/// What the model sent back, reduced to its primary text: `None` where the
/// reply carried no such field.
#[derive(Clone, Debug, PartialEq, Eq)]
pub struct ModelResponse {
    pub primary_text: Option<String>,
}

/// The text of the single turn that carries both background and request.
pub open spec fn turn_text(query: Seq<char>, context: Seq<char>) -> Seq<char> {
    "Context: "@ + context + "\n\nUser: "@ + query
}

impl MessageContext {
    /// Whether this context is exactly one user turn that reads `text`.
    pub open spec fn is_single_user_turn(&self, text: Seq<char>) -> bool {
        &&& self.turns@.len() == 1
        &&& self.turns@[0].role == Role::User
        &&& self.turns@[0].content@ == text
    }
}

impl ModelResponse {
    /// The primary text, or the empty text where there is none.
    pub open spec fn text(&self) -> Seq<char> {
        match self.primary_text {
            Some(t) => t@,
            None => Seq::empty(),
        }
    }

    /// The primary text, or an empty string where the reply had none.
    pub fn text_or_empty(&self) -> (r: String)
        ensures
            r@ == self.text(),
    {
        match &self.primary_text {
            Some(t) => t.clone(),
            None => String::new(),
        }
    }
}

/// Builds the context of one invocation: a single user turn that holds the
/// background first and the request after it.
pub fn get_context(query: &str, context: &str) -> (m: MessageContext)
    ensures
        m.is_single_user_turn(turn_text(query@, context@)),
{
    let mut content: String = String::from_str("Context: ");
    content.append(context);
    content.append("\n\nUser: ");
    content.append(query);
    let mut turns: Vec<Message> = Vec::new();
    turns.push(Message { role: Role::User, content });
    MessageContext { turns }
}

} // verus!
