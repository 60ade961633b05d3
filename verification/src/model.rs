//! The data model: conversation messages, a completion request with its
//! optional sampling parameters, and the two shapes of reply, the full
//! response and the streamed chunk.
//!
//! Every type has a view in which each text is a sequence of characters; the
//! contracts of the crate are stated over these views.

use vstd::prelude::*;

verus! {

/// The `object` tag of a full response.
pub open spec fn response_object() -> Seq<char> {
    "chat.completion"@
}

/// The `object` tag of a streamed chunk.
pub open spec fn chunk_object() -> Seq<char> {
    "chat.completion.chunk"@
}

/// The view of an optional text.
pub open spec fn text_of(t: Option<String>) -> Option<Seq<char>> {
    match t {
        Some(s) => Some(s@),
        None => None,
    }
}

/// Who speaks in a message.
#[derive(Clone, Copy, Debug, PartialEq, Eq, Structural)]
pub enum Role {
    System,
    User,
    Assistant,
}

/// Why generation stopped.
#[derive(Clone, Copy, Debug, PartialEq, Eq, Structural)]
pub enum FinishReason {
    Stop,
    Length,
    ContentFilter,
    ToolCalls,
    FunctionCall,
}

/// One message of a conversation.
#[derive(Clone, Debug, PartialEq, Eq)]
pub struct Message {
    pub role: Role,
    pub content: String,
}

/// A message with its content as a sequence of characters.
pub struct MessageView {
    pub role: Role,
    pub content: Seq<char>,
}

impl View for Message {
    type V = MessageView;

    open spec fn view(&self) -> MessageView {
        MessageView { role: self.role, content: self.content@ }
    }
}

impl Message {
    /// A message of the given role.
    pub fn new(role: Role, content: &str) -> (m: Message)
        ensures
            m@ == (MessageView { role, content: content@ }),
    {
        Message { role, content: content.to_owned() }
    }
}

/// A message spoken by the user.
pub fn user_message(content: &str) -> (m: Message)
    ensures
        m@ == (MessageView { role: Role::User, content: content@ }),
{
    Message::new(Role::User, content)
}

/// A message that sets the scene for the assistant.
pub fn system_message(content: &str) -> (m: Message)
    ensures
        m@ == (MessageView { role: Role::System, content: content@ }),
{
    Message::new(Role::System, content)
}

/// A message spoken by the assistant earlier in the conversation.
pub fn assistant_message(content: &str) -> (m: Message)
    ensures
        m@ == (MessageView { role: Role::Assistant, content: content@ }),
{
    Message::new(Role::Assistant, content)
}

/// The views of a conversation's messages, in order.
pub open spec fn conversation(messages: Seq<Message>) -> Seq<MessageView> {
    messages.map_values(|m: Message| m@)
}

/// Token counts reported by the target.
#[derive(Clone, Copy, Debug, PartialEq, Eq, Structural)]
pub struct Usage {
    pub prompt_tokens: u32,
    pub completion_tokens: u32,
    pub total_tokens: u32,
}

impl Usage {
    /// The total is the sum of the two parts.
    pub open spec fn adds_up(&self) -> bool {
        self.total_tokens == self.prompt_tokens + self.completion_tokens
    }

    /// Whether the total is the sum of the two parts. The harness watches
    /// this; it fails no scenario on it.
    pub fn is_consistent(&self) -> (r: bool)
        ensures
            r == self.adds_up(),
    {
        let sum: u64 = self.prompt_tokens as u64 + self.completion_tokens as u64;
        sum == self.total_tokens as u64
    }
}

/// A completion request. The optional sampling fields are advice to the
/// target; the fractional ones are held in thousandths.
#[derive(Clone, Debug, PartialEq, Eq)]
pub struct CompletionRequest {
    pub model: String,
    pub messages: Vec<Message>,
    pub stream: bool,
    pub temperature_milli: Option<u32>,
    pub top_p_milli: Option<u32>,
    pub max_tokens: Option<u32>,
    pub frequency_penalty_milli: Option<i32>,
    pub presence_penalty_milli: Option<i32>,
    pub user: Option<String>,
}

/// A request with its texts as sequences of characters.
pub struct RequestView {
    pub model: Seq<char>,
    pub messages: Seq<MessageView>,
    pub stream: bool,
    pub temperature_milli: Option<u32>,
    pub top_p_milli: Option<u32>,
    pub max_tokens: Option<u32>,
    pub frequency_penalty_milli: Option<i32>,
    pub presence_penalty_milli: Option<i32>,
    pub user: Option<Seq<char>>,
}

impl View for CompletionRequest {
    type V = RequestView;

    open spec fn view(&self) -> RequestView {
        RequestView {
            model: self.model@,
            messages: conversation(self.messages@),
            stream: self.stream,
            temperature_milli: self.temperature_milli,
            top_p_milli: self.top_p_milli,
            max_tokens: self.max_tokens,
            frequency_penalty_milli: self.frequency_penalty_milli,
            presence_penalty_milli: self.presence_penalty_milli,
            user: text_of(self.user),
        }
    }
}

/// Why a request cannot be sent.
#[derive(Clone, Copy, Debug, PartialEq, Eq, Structural)]
pub enum RequestError {
    /// The conversation holds no message.
    EmptyMessages,
}

impl RequestView {
    /// The request as `new` makes it: not streamed, no sampling field set.
    pub open spec fn plain(model: Seq<char>, messages: Seq<MessageView>) -> RequestView {
        RequestView {
            model,
            messages,
            stream: false,
            temperature_milli: None,
            top_p_milli: None,
            max_tokens: None,
            frequency_penalty_milli: None,
            presence_penalty_milli: None,
            user: None,
        }
    }

    /// A request is valid when its conversation holds at least one message.
    pub open spec fn valid(self) -> bool {
        self.messages.len() > 0
    }
}

impl CompletionRequest {
    /// A request for `model` with the given conversation, not streamed and
    /// with no sampling field set.
    pub fn new(model: &str, messages: Vec<Message>) -> (r: CompletionRequest)
        ensures
            r@ == RequestView::plain(model@, conversation(messages@)),
    {
        CompletionRequest {
            model: model.to_owned(),
            messages,
            stream: false,
            temperature_milli: None,
            top_p_milli: None,
            max_tokens: None,
            frequency_penalty_milli: None,
            presence_penalty_milli: None,
            user: None,
        }
    }

    /// The same request, streamed or not.
    pub fn with_stream(self, stream: bool) -> (r: CompletionRequest)
        ensures
            r@ == (RequestView { stream, ..self@ }),
    {
        CompletionRequest { stream, ..self }
    }

    /// The same request with a temperature, in thousandths.
    pub fn with_temperature_milli(self, value: u32) -> (r: CompletionRequest)
        ensures
            r@ == (RequestView { temperature_milli: Some(value), ..self@ }),
    {
        CompletionRequest { temperature_milli: Some(value), ..self }
    }

    /// The same request with a nucleus sampling mass, in thousandths.
    pub fn with_top_p_milli(self, value: u32) -> (r: CompletionRequest)
        ensures
            r@ == (RequestView { top_p_milli: Some(value), ..self@ }),
    {
        CompletionRequest { top_p_milli: Some(value), ..self }
    }

    /// The same request with a limit on the tokens of the reply.
    pub fn with_max_tokens(self, value: u32) -> (r: CompletionRequest)
        ensures
            r@ == (RequestView { max_tokens: Some(value), ..self@ }),
    {
        CompletionRequest { max_tokens: Some(value), ..self }
    }

    /// The same request with a frequency penalty, in thousandths.
    pub fn with_frequency_penalty_milli(self, value: i32) -> (r: CompletionRequest)
        ensures
            r@ == (RequestView { frequency_penalty_milli: Some(value), ..self@ }),
    {
        CompletionRequest { frequency_penalty_milli: Some(value), ..self }
    }

    /// The same request with a presence penalty, in thousandths.
    pub fn with_presence_penalty_milli(self, value: i32) -> (r: CompletionRequest)
        ensures
            r@ == (RequestView { presence_penalty_milli: Some(value), ..self@ }),
    {
        CompletionRequest { presence_penalty_milli: Some(value), ..self }
    }

    /// The same request in the name of an end user.
    pub fn with_user(self, user: &str) -> (r: CompletionRequest)
        ensures
            r@ == (RequestView { user: Some(user@), ..self@ }),
    {
        CompletionRequest { user: Some(user.to_owned()), ..self }
    }

    /// Rejects a request whose conversation is empty, and no other.
    pub fn validate(&self) -> (r: Result<(), RequestError>)
        ensures
            r is Ok <==> self@.valid(),
            r is Err ==> r == Err::<(), RequestError>(RequestError::EmptyMessages),
    {
        if self.messages.len() == 0 {
            Err(RequestError::EmptyMessages)
        } else {
            Ok(())
        }
    }
}

/// The message of a full response's choice.
#[derive(Clone, Debug, PartialEq, Eq)]
pub struct ReplyMessage {
    /// Who speaks; `None` where it is none of the three roles of a
    /// conversation.
    pub role: Option<Role>,
    /// What is said, where anything is.
    pub content: Option<String>,
}

/// The message of a choice with its content as a sequence of characters.
pub struct ReplyMessageView {
    pub role: Option<Role>,
    pub content: Option<Seq<char>>,
}

impl View for ReplyMessage {
    type V = ReplyMessageView;

    open spec fn view(&self) -> ReplyMessageView {
        ReplyMessageView { role: self.role, content: text_of(self.content) }
    }
}

/// One choice of a full response.
#[derive(Clone, Debug, PartialEq, Eq)]
pub struct Choice {
    pub index: u32,
    pub message: ReplyMessage,
    pub finish_reason: Option<FinishReason>,
}

/// A choice with its texts as sequences of characters.
pub struct ChoiceView {
    pub index: u32,
    pub message: ReplyMessageView,
    pub finish_reason: Option<FinishReason>,
}

impl View for Choice {
    type V = ChoiceView;

    open spec fn view(&self) -> ChoiceView {
        ChoiceView {
            index: self.index,
            message: self.message@,
            finish_reason: self.finish_reason,
        }
    }
}

/// The reply to a request that is not streamed.
#[derive(Clone, Debug, PartialEq, Eq)]
pub struct CompletionResponse {
    pub id: String,
    pub object: String,
    pub created: u64,
    pub model: String,
    pub choices: Vec<Choice>,
    pub usage: Option<Usage>,
}

/// A full response with its texts as sequences of characters.
pub struct ResponseView {
    pub id: Seq<char>,
    pub object: Seq<char>,
    pub created: u64,
    pub model: Seq<char>,
    pub choices: Seq<ChoiceView>,
    pub usage: Option<Usage>,
}

impl View for CompletionResponse {
    type V = ResponseView;

    open spec fn view(&self) -> ResponseView {
        ResponseView {
            id: self.id@,
            object: self.object@,
            created: self.created,
            model: self.model@,
            choices: self.choices@.map_values(|c: Choice| c@),
            usage: self.usage,
        }
    }
}

/// The part of a reply that one streamed chunk carries.
#[derive(Clone, Debug, PartialEq, Eq)]
pub struct Delta {
    pub content: Option<String>,
}

/// One choice of a streamed chunk.
#[derive(Clone, Debug, PartialEq, Eq)]
pub struct DeltaChoice {
    pub index: u32,
    pub delta: Delta,
    pub finish_reason: Option<FinishReason>,
}

/// A choice of a chunk, with the content of its delta as a sequence of
/// characters.
pub struct DeltaChoiceView {
    pub index: u32,
    pub content: Option<Seq<char>>,
    pub finish_reason: Option<FinishReason>,
}

impl View for DeltaChoice {
    type V = DeltaChoiceView;

    open spec fn view(&self) -> DeltaChoiceView {
        DeltaChoiceView {
            index: self.index,
            content: text_of(self.delta.content),
            finish_reason: self.finish_reason,
        }
    }
}

/// One unit of a streamed reply.
#[derive(Clone, Debug, PartialEq, Eq)]
pub struct CompletionChunk {
    pub id: String,
    pub object: String,
    pub created: u64,
    pub model: String,
    pub choices: Vec<DeltaChoice>,
}

/// A chunk with its texts as sequences of characters.
pub struct ChunkView {
    pub id: Seq<char>,
    pub object: Seq<char>,
    pub created: u64,
    pub model: Seq<char>,
    pub choices: Seq<DeltaChoiceView>,
}

impl View for CompletionChunk {
    type V = ChunkView;

    open spec fn view(&self) -> ChunkView {
        ChunkView {
            id: self.id@,
            object: self.object@,
            created: self.created,
            model: self.model@,
            choices: self.choices@.map_values(|c: DeltaChoice| c@),
        }
    }
}

impl ChunkView {
    /// The text that the chunk adds to the reply: the content of its first
    /// choice, and nothing where that is absent.
    pub open spec fn text(self) -> Seq<char> {
        if self.choices.len() > 0 {
            match self.choices[0].content {
                Some(t) => t,
                None => Seq::empty(),
            }
        } else {
            Seq::empty()
        }
    }

    /// The finish reason that the chunk's first choice carries, if any.
    pub open spec fn finish(self) -> Option<FinishReason> {
        if self.choices.len() > 0 {
            self.choices[0].finish_reason
        } else {
            None
        }
    }
}

/// A failed call as the transport reports it: the status code where the
/// transport has one, and the rendered text of the error.
#[derive(Clone, Debug, PartialEq, Eq)]
pub struct CallError {
    pub status: Option<u16>,
    pub message: String,
}

/// A failed call with its text as a sequence of characters.
pub struct CallErrorView {
    pub status: Option<u16>,
    pub message: Seq<char>,
}

impl View for CallError {
    type V = CallErrorView;

    open spec fn view(&self) -> CallErrorView {
        CallErrorView { status: self.status, message: self.message@ }
    }
}

} // verus!
