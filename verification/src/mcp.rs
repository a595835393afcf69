//! What a tool front-end is called with, and the results of tool calls as
//! it hands them on.

use vstd::prelude::*;
use vstd::string::StringExecFns;

verus! {

/// One item of the content of a result.
#[derive(Debug, Clone)]
pub struct Content {
    /// The kind of content; `text` for text.
    pub content_type: String,
    /// The text.
    pub text: String,
}

impl Content {
    /// An item of the kind `text` that holds `s`.
    pub fn text(s: &str) -> (out: Self)
        ensures
            out.content_type@ == "text"@,
            out.text@ == s@,
    {
        Content { content_type: String::from_str("text"), text: String::from_str(s) }
    }

    /// This item, if it is of the kind `text`.
    pub fn as_text(&self) -> (out: Option<&Content>)
        ensures
            out is Some <==> self.content_type@ == "text"@,
            out matches Some(item) ==> *item == *self,
    {
        if self.content_type.as_str().eq("text") {
            Some(self)
        } else {
            None
        }
    }
}

/// The result of one tool call.
#[derive(Debug, Clone)]
pub struct CallToolResult {
    /// What the call gave.
    pub content: Vec<Content>,
    /// Whether the call failed.
    pub is_error: Option<bool>,
}

impl CallToolResult {
    /// The result of a call that went well.
    pub fn success(content: Vec<Content>) -> (out: Self)
        ensures
            out.content == content,
            out.is_error == Some(false),
    {
        CallToolResult { content, is_error: Some(false) }
    }

    /// The result of a call that failed.
    pub fn error(content: Vec<Content>) -> (out: Self)
        ensures
            out.content == content,
            out.is_error == Some(true),
    {
        CallToolResult { content, is_error: Some(true) }
    }
}

/// What the tool that runs a script is called with.
#[derive(Debug)]
pub struct ExecuteLuaInput {
    /// The script.
    pub code: String,
}

/// What the tool that reads a value is called with.
#[derive(Debug)]
pub struct KvGetInput {
    /// The namespace to read from.
    pub namespace: String,
    /// The key to read.
    pub key: String,
}

/// What the tool that writes a value is called with.
#[derive(Debug)]
pub struct KvPutInput {
    /// The namespace to write to.
    pub namespace: String,
    /// The key to write.
    pub key: String,
    /// The value to write under the key.
    pub value: String,
}

/// What the tool that removes a key is called with.
#[derive(Debug)]
pub struct KvDeleteInput {
    /// The namespace to remove from.
    pub namespace: String,
    /// The key to remove.
    pub key: String,
}

/// What the tool that creates a namespace is called with.
#[derive(Debug)]
pub struct CreateNamespaceInput {
    /// The name of the namespace.
    pub name: String,
    /// The number of components of its vectors, if the caller says.
    pub dimensions: Option<usize>,
    /// The name of its distance, if the caller says.
    pub metric: Option<String>,
}

/// What the tool that deletes a namespace is called with.
#[derive(Debug)]
pub struct DeleteNamespaceInput {
    /// The name of the namespace.
    pub name: String,
}

/// What the tool that searches by meaning is called with.
#[derive(Debug)]
pub struct SemanticSearchInput {
    /// The namespace to search.
    pub namespace: String,
    /// The text to search for.
    pub query: String,
    /// How many hits to give at most, if the caller says.
    pub k: Option<usize>,
}

/// What the tool that stores a document is called with.
#[derive(Debug)]
pub struct StoreDocumentInput {
    /// The namespace to store in.
    pub namespace: String,
    /// The key to store the text under.
    pub key: String,
    /// The text.
    pub text: String,
    /// The id of the text's vector.
    pub id: u64,
}

/// What the tool that stores a memory of an agent is called with.
#[derive(Debug)]
pub struct AgentStoreMemoryInput {
    /// The agent.
    pub agent_id: String,
    /// What to remember.
    pub content: String,
    /// The tags to remember it under, if any.
    pub tags: Option<Vec<String>>,
}

/// What the tool that recalls memories by meaning is called with.
#[derive(Debug)]
pub struct AgentRecallMemoryInput {
    /// The agent.
    pub agent_id: String,
    /// The text to recall by.
    pub query: String,
    /// How many memories to give at most, if the caller says.
    pub k: Option<usize>,
}

/// What the tool that recalls memories by tag is called with.
#[derive(Debug)]
pub struct AgentRecallByTagsInput {
    /// The agent.
    pub agent_id: String,
    /// The tags to recall by.
    pub tags: Vec<String>,
    /// How many memories to give at most, if the caller says.
    pub k: Option<usize>,
}

/// What the tool that adds a message to a conversation is called with.
#[derive(Debug)]
pub struct AgentAddMessageInput {
    /// The agent.
    pub agent_id: String,
    /// The conversation.
    pub conversation_id: String,
    /// The name of the role of who speaks.
    pub role: String,
    /// What is said.
    pub content: String,
}

/// What the tool that reads a conversation is called with.
#[derive(Debug)]
pub struct AgentGetMessagesInput {
    /// The agent.
    pub agent_id: String,
    /// The conversation.
    pub conversation_id: String,
    /// How many of the last messages to give, if the caller says.
    pub last_n: Option<usize>,
}

/// What the tool that creates an agent is called with.
#[derive(Debug)]
pub struct AgentCreateInput {
    /// The agent.
    pub id: String,
    /// What the agent is for, if the caller says.
    pub description: Option<String>,
}

} // verus!
