//! The conversation endpoints: starting a conversation with a persona's greeting, and the
//! shapes in which conversations and their messages are answered.
use vstd::prelude::*;
use crate::domain::persona::{Conversation, Message, Persona, Role, role_text};
use crate::ids::{uuid_text, uuid_to_string};
use crate::llm::prompt::{resolve_placeholders, resolved};

verus! {

/// How many of the latest messages a reply is prompted with.
pub const HISTORY_LIMIT: u32 = 10;

/// How many of the latest messages a conversation's detail shows.
pub const DETAIL_LIMIT: u32 = 50;

/// The body of a conversation creation: the persona to talk to.
#[derive(Debug, Clone)]
pub struct CreateConversationRequest {
    pub persona_id: u128,
}

/// A new conversation as the API answers it, with its greeting.
#[derive(Debug, Clone)]
pub struct ConversationResponse {
    pub id: String,
    pub persona_id: String,
    pub first_message: String,
}

/// A message as a conversation's detail shows it.
#[derive(Debug, Clone)]
pub struct MessageResponse {
    pub id: String,
    pub role: String,
    pub content: String,
    pub token_count: Option<i64>,
}

/// A conversation with its latest messages, oldest first.
#[derive(Debug, Clone)]
pub struct ConversationDetailResponse {
    pub id: String,
    pub persona_id: String,
    pub created_at: i64,
    pub messages: Vec<MessageResponse>,
}

/// A reply as the API answers a message that was not streamed.
#[derive(Debug, Clone)]
pub struct MessageDetailResponse {
    pub id: String,
    pub role: String,
    pub content: String,
}

/// The body of a message sent by the user.
#[derive(Debug, Clone)]
pub struct CreateMessageRequest {
    pub content: String,
}

/// A conversation as the list of a persona's conversations shows it.
#[derive(Debug, Clone)]
pub struct ConversationSummary {
    pub id: String,
    pub persona_id: String,
    pub created_at: i64,
}

/// The answer to a query for a persona's latest conversation: `None` where it has none.
#[derive(Debug, Clone)]
pub struct ConversationListResponse {
    pub conversation: Option<ConversationSummary>,
}

/// The greeting a new conversation opens with: the persona's first message with its
/// placeholders resolved for the persona and the user.
pub open spec fn greeting(p: Persona, user_name: Seq<char>) -> Seq<char> {
    resolved(p.first_message@, p.name@, user_name, p.response_length_limit)
}

/// A new conversation with `persona`, under `conversation_id` and created at
/// `created_at` (seconds since the Unix epoch), and its first message, under
/// `message_id`: the persona's greeting, written by the assistant.
pub fn start_conversation(
    persona: &Persona,
    user_name: &str,
    conversation_id: u128,
    message_id: u128,
    created_at: i64,
) -> (r: (Conversation, Message))
    ensures
        r.0 == (Conversation { id: conversation_id, persona_id: persona.id, created_at }),
        r.1.id == message_id,
        r.1.conversation_id == conversation_id,
        r.1.role == Role::Assistant,
        r.1.content@ == greeting(*persona, user_name@),
        r.1.token_count is None,
{
    let first_message = resolve_placeholders(
        persona.first_message.as_str(),
        persona.name.as_str(),
        user_name,
        persona.response_length_limit,
    );
    let conv = Conversation { id: conversation_id, persona_id: persona.id, created_at };
    let msg = Message {
        id: message_id,
        conversation_id,
        role: Role::Assistant,
        content: first_message,
        token_count: None,
    };
    (conv, msg)
}

/// The answer to a conversation creation.
pub fn conversation_response(conv: &Conversation, first_message: String) -> (r: ConversationResponse)
    ensures
        r.id@ == uuid_text(conv.id),
        r.persona_id@ == uuid_text(conv.persona_id),
        r.first_message == first_message,
{
    ConversationResponse {
        id: uuid_to_string(conv.id),
        persona_id: uuid_to_string(conv.persona_id),
        first_message,
    }
}

/// How a conversation's detail shows a message.
pub open spec fn shows_message(m: Message, r: MessageResponse) -> bool {
    &&& r.id@ == uuid_text(m.id)
    &&& r.role@ == role_text(m.role)
    &&& r.content == m.content
    &&& r.token_count == m.token_count
}

/// The detail form of a message.
pub fn message_response(m: &Message) -> (r: MessageResponse)
    ensures
        shows_message(*m, r),
{
    MessageResponse {
        id: uuid_to_string(m.id),
        role: m.role.to_text(),
        content: m.content.clone(),
        token_count: m.token_count,
    }
}

/// A conversation's detail: the conversation and each of the given messages, in order.
pub fn conversation_detail(conv: &Conversation, messages: &Vec<Message>) -> (r: ConversationDetailResponse)
    ensures
        r.id@ == uuid_text(conv.id),
        r.persona_id@ == uuid_text(conv.persona_id),
        r.created_at == conv.created_at,
        r.messages.len() == messages.len(),
        forall|i: int| 0 <= i < messages.len() ==> #[trigger] shows_message(messages@[i], r.messages@[i]),
{
    let mut shown: Vec<MessageResponse> = Vec::new();
    let n = messages.len();
    for i in 0..n
        invariant
            n == messages.len(),
            shown.len() == i,
            forall|k: int| 0 <= k < i ==> #[trigger] shows_message(messages@[k], shown@[k]),
    {
        shown.push(message_response(&messages[i]));
    }
    ConversationDetailResponse {
        id: uuid_to_string(conv.id),
        persona_id: uuid_to_string(conv.persona_id),
        created_at: conv.created_at,
        messages: shown,
    }
}

/// The answer to a query for a persona's latest conversation.
pub fn conversation_list(latest: Option<Conversation>) -> (r: ConversationListResponse)
    ensures
        match latest {
            None => r.conversation is None,
            Some(c) => r.conversation matches Some(s) && s.id@ == uuid_text(c.id) && s.persona_id@
                == uuid_text(c.persona_id) && s.created_at == c.created_at,
        },
{
    match latest {
        None => ConversationListResponse { conversation: None },
        Some(c) => ConversationListResponse {
            conversation: Some(
                ConversationSummary {
                    id: uuid_to_string(c.id),
                    persona_id: uuid_to_string(c.persona_id),
                    created_at: c.created_at,
                },
            ),
        },
    }
}

/// The answer to a message that was not streamed: the stored reply, as the assistant's.
pub fn message_detail(reply: &Message) -> (r: MessageDetailResponse)
    ensures
        r.id@ == uuid_text(reply.id),
        r.role@ == "assistant"@,
        r.content == reply.content,
{
    MessageDetailResponse {
        id: uuid_to_string(reply.id),
        role: "assistant".to_owned(),
        content: reply.content.clone(),
    }
}

} // verus!
