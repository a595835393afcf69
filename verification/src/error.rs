//! The errors of the database's own operations.

use vstd::prelude::*;
use vstd::string::StringExecFns;

verus! {

/// What can go wrong in an operation on the database.
#[derive(Debug)]
pub enum LiathError {
    /// No namespace has this name.
    NamespaceNotFound(String),
    /// A namespace with this name exists already.
    NamespaceExists(String),
    /// The namespace of this name holds nothing under the key asked for.
    KeyNotFound(String),
    /// The storage layer failed; the text says how.
    Storage(String),
    /// The caller may not do this.
    Unauthorized(String),
    /// No embedding could be made.
    Embedding(String),
    /// The vector search failed.
    VectorSearch(String),
    /// A record could not be written or read back.
    Serialization(String),
    /// A persisted setting has a value that is not understood.
    Configuration(String),
    /// An agent operation failed.
    Agent(String),
    /// No conversation has this id.
    ConversationNotFound(String),
    /// Reading or writing a file failed; the text says how.
    Io(String),
    /// An argument has a value that makes no sense.
    InvalidInput(String),
}

/// The mathematical content of a [`LiathError`].
pub ghost enum LiathErrorView {
    NamespaceNotFound(Seq<char>),
    NamespaceExists(Seq<char>),
    KeyNotFound(Seq<char>),
    Storage(Seq<char>),
    Unauthorized(Seq<char>),
    Embedding(Seq<char>),
    VectorSearch(Seq<char>),
    Serialization(Seq<char>),
    Configuration(Seq<char>),
    Agent(Seq<char>),
    ConversationNotFound(Seq<char>),
    Io(Seq<char>),
    InvalidInput(Seq<char>),
}

impl View for LiathError {
    type V = LiathErrorView;

    open spec fn view(&self) -> LiathErrorView {
        match self {
            LiathError::NamespaceNotFound(s) => LiathErrorView::NamespaceNotFound(s@),
            LiathError::NamespaceExists(s) => LiathErrorView::NamespaceExists(s@),
            LiathError::KeyNotFound(s) => LiathErrorView::KeyNotFound(s@),
            LiathError::Storage(s) => LiathErrorView::Storage(s@),
            LiathError::Unauthorized(s) => LiathErrorView::Unauthorized(s@),
            LiathError::Embedding(s) => LiathErrorView::Embedding(s@),
            LiathError::VectorSearch(s) => LiathErrorView::VectorSearch(s@),
            LiathError::Serialization(s) => LiathErrorView::Serialization(s@),
            LiathError::Configuration(s) => LiathErrorView::Configuration(s@),
            LiathError::Agent(s) => LiathErrorView::Agent(s@),
            LiathError::ConversationNotFound(s) => LiathErrorView::ConversationNotFound(s@),
            LiathError::Io(s) => LiathErrorView::Io(s@),
            LiathError::InvalidInput(s) => LiathErrorView::InvalidInput(s@),
        }
    }
}

/// The text that stands for the error `e`.
pub open spec fn error_text(e: LiathErrorView) -> Seq<char> {
    match e {
        LiathErrorView::NamespaceNotFound(s) => "Namespace '"@ + s + "' not found"@,
        LiathErrorView::NamespaceExists(s) => "Namespace '"@ + s + "' already exists"@,
        LiathErrorView::KeyNotFound(s) => "Key not found in namespace '"@ + s + "'"@,
        LiathErrorView::Storage(s) => "Storage error: "@ + s,
        LiathErrorView::Unauthorized(s) => "Unauthorized: "@ + s,
        LiathErrorView::Embedding(s) => "Embedding error: "@ + s,
        LiathErrorView::VectorSearch(s) => "Vector search error: "@ + s,
        LiathErrorView::Serialization(s) => "Serialization error: "@ + s,
        LiathErrorView::Configuration(s) => "Configuration error: "@ + s,
        LiathErrorView::Agent(s) => "Agent error: "@ + s,
        LiathErrorView::ConversationNotFound(s) => "Conversation '"@ + s + "' not found"@,
        LiathErrorView::Io(s) => "IO error: "@ + s,
        LiathErrorView::InvalidInput(s) => "Invalid input: "@ + s,
    }
}

/// `before`, then `middle`, then `after`.
fn wrap(before: &str, middle: &str, after: &str) -> (out: String)
    ensures
        out@ == before@ + middle@ + after@,
{
    let mut out = String::from_str(before);
    out.append(middle);
    out.append(after);
    out
}

/// `before`, then `rest`.
fn prefixed(before: &str, rest: &str) -> (out: String)
    ensures
        out@ == before@ + rest@,
{
    let mut out = String::from_str(before);
    out.append(rest);
    out
}

impl LiathError {
    /// The text that stands for this error.
    pub fn to_string(&self) -> (out: String)
        ensures
            out@ == error_text(self@),
    {
        match self {
            LiathError::NamespaceNotFound(s) => wrap("Namespace '", s.as_str(), "' not found"),
            LiathError::NamespaceExists(s) => wrap("Namespace '", s.as_str(), "' already exists"),
            LiathError::KeyNotFound(s) => wrap("Key not found in namespace '", s.as_str(), "'"),
            LiathError::Storage(s) => prefixed("Storage error: ", s.as_str()),
            LiathError::Unauthorized(s) => prefixed("Unauthorized: ", s.as_str()),
            LiathError::Embedding(s) => prefixed("Embedding error: ", s.as_str()),
            LiathError::VectorSearch(s) => prefixed("Vector search error: ", s.as_str()),
            LiathError::Serialization(s) => prefixed("Serialization error: ", s.as_str()),
            LiathError::Configuration(s) => prefixed("Configuration error: ", s.as_str()),
            LiathError::Agent(s) => prefixed("Agent error: ", s.as_str()),
            LiathError::ConversationNotFound(s) => wrap("Conversation '", s.as_str(), "' not found"),
            LiathError::Io(s) => prefixed("IO error: ", s.as_str()),
            LiathError::InvalidInput(s) => prefixed("Invalid input: ", s.as_str()),
        }
    }
}

/// The result of an operation on the database.
pub type LiathResult<T> = Result<T, LiathError>;

} // verus!
