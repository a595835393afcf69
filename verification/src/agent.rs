//! The data that agents exchange: who said what, and when.

use vstd::prelude::*;

verus! {

/// The id of an agent.
pub type AgentId = String;

/// The id of a memory.
pub type MemoryId = u64;

/// The id of a conversation.
pub type ConversationId = String;

/// The id of a message.
pub type MessageId = u64;

/// Who sent a message.
#[derive(Debug, PartialEq)]
pub enum Role {
    /// The user.
    User,
    /// The assistant.
    Assistant,
    /// The system.
    System,
    /// A tool, by its name.
    Tool(String),
}

/// The name of the role `role`.
pub open spec fn role_name(role: Role) -> Seq<char> {
    match role {
        Role::User => "user"@,
        Role::Assistant => "assistant"@,
        Role::System => "system"@,
        Role::Tool(_) => "tool"@,
    }
}

impl Role {
    /// The name of this role.
    pub fn as_str(&self) -> (out: &str)
        ensures
            out@ == role_name(*self),
    {
        match self {
            Role::User => "user",
            Role::Assistant => "assistant",
            Role::System => "system",
            Role::Tool(_) => "tool",
        }
    }
}

/// One message of a conversation.
#[derive(Debug)]
pub struct Message {
    /// The id of the message, counted from one within its conversation.
    pub id: MessageId,
    /// Who sent it.
    pub role: Role,
    /// What it says.
    pub content: String,
    /// When it was sent, in seconds since 1970.
    pub timestamp: u64,
}

/// What is kept of a registered agent.
#[derive(Debug, Clone)]
pub struct AgentMetadata {
    /// The id of the agent.
    pub id: String,
    /// When it was registered, in seconds since 1970.
    pub created_at: u64,
    /// What it is for.
    pub description: Option<String>,
}

} // verus!
