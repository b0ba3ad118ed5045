//! The values that travel to and from the chat-completion service.

use crate::text::opt_string;
use vstd::prelude::*;

verus! {

/// The role of the message that sets the assistant's task.
pub const ROLE_SYSTEM: &'static str = "system";

/// The role of the message that carries the user's request.
pub const ROLE_USER: &'static str = "user";

/// The path, below the endpoint, that chat completions are posted to.
pub const COMPLETIONS_PATH: &'static str = "/chat/completions";

/// What precedes the API key in the `Authorization` header.
pub const BEARER_PREFIX: &'static str = "Bearer ";

/// One message of a conversation.
#[derive(Debug, PartialEq, Eq)]
pub struct ChatMessage {
    pub role: String,
    pub content: String,
}

/// The body of a chat-completion request.
#[derive(Debug, PartialEq, Eq)]
pub struct ChatRequest {
    pub model: String,
    pub messages: Vec<ChatMessage>,
    /// Sampling temperature, as the bits of a single-precision number.
    pub temperature: u32,
    /// Token limit; where it is `None` the body has no such member.
    pub max_tokens: Option<i32>,
}

/// One of the alternatives that a response offers.
#[derive(Debug, PartialEq, Eq)]
pub struct ChatChoice {
    pub message: ChatMessage,
}

/// The body of a chat-completion response.
#[derive(Debug, PartialEq, Eq)]
pub struct ChatResponse {
    pub choices: Vec<ChatChoice>,
}

/// A request to post: where to, with which credentials, for how long at
/// most, and what.
#[derive(Debug, PartialEq, Eq)]
pub struct HttpRequest {
    pub url: String,
    /// The value of the `Authorization` header; `None` sends no such header.
    pub authorization: Option<String>,
    /// The time that the whole request may take, in seconds.
    pub timeout_seconds: u64,
    pub body: ChatRequest,
}

/// The mathematical model of a [`ChatMessage`].
pub struct ChatMessageView {
    pub role: Seq<char>,
    pub content: Seq<char>,
}

/// The mathematical model of a [`ChatRequest`].
pub struct ChatRequestView {
    pub model: Seq<char>,
    pub messages: Seq<ChatMessageView>,
    pub temperature: u32,
    pub max_tokens: Option<i32>,
}

/// The mathematical model of a [`ChatResponse`]: the messages of its
/// choices, in order.
pub struct ChatResponseView {
    pub choices: Seq<ChatMessageView>,
}

/// The mathematical model of an [`HttpRequest`].
pub struct HttpRequestView {
    pub url: Seq<char>,
    pub authorization: Option<Seq<char>>,
    pub timeout_seconds: u64,
    pub body: ChatRequestView,
}

impl View for ChatMessage {
    type V = ChatMessageView;

    open spec fn view(&self) -> ChatMessageView {
        ChatMessageView { role: self.role@, content: self.content@ }
    }
}

impl View for ChatRequest {
    type V = ChatRequestView;

    open spec fn view(&self) -> ChatRequestView {
        ChatRequestView {
            model: self.model@,
            messages: Seq::new(self.messages@.len(), |i: int| self.messages@[i]@),
            temperature: self.temperature,
            max_tokens: self.max_tokens,
        }
    }
}

impl View for ChatChoice {
    type V = ChatMessageView;

    open spec fn view(&self) -> ChatMessageView {
        self.message@
    }
}

impl View for ChatResponse {
    type V = ChatResponseView;

    open spec fn view(&self) -> ChatResponseView {
        ChatResponseView { choices: Seq::new(self.choices@.len(), |i: int| self.choices@[i]@) }
    }
}

impl View for HttpRequest {
    type V = HttpRequestView;

    open spec fn view(&self) -> HttpRequestView {
        HttpRequestView {
            url: self.url@,
            authorization: opt_string(self.authorization),
            timeout_seconds: self.timeout_seconds,
            body: self.body@,
        }
    }
}

impl ChatMessage {
    /// A message of the given role and content.
    pub fn new(role: &str, content: &str) -> (message: ChatMessage)
        ensures
            message@ == (ChatMessageView { role: role@, content: content@ }),
    {
        ChatMessage { role: String::from_str(role), content: String::from_str(content) }
    }
}

} // verus!
