//! The message endpoints: which message may be regenerated or edited, and the messages
//! that a turn of the conversation stores.
use vstd::prelude::*;
use crate::domain::persona::{Message, Persona, Role, Summary};
use crate::llm::prompt::{
    OllamaMessage, build_prompt, lemma_prompt_frame, message_views, prompt_blocks, resolved,
    summary_content,
};
use crate::text::is_blank;
use crate::server::error::ApiError;

verus! {

broadcast use vstd::string::group_string_axioms;

/// The body of a regeneration: optional instructions that replace the persona's
/// post-history instructions for this reply.
#[derive(Debug, Clone)]
pub struct RegenerateMessageRequest {
    pub instructions: Option<String>,
}

/// The body of an edit: the new content of the message.
#[derive(Debug, Clone)]
pub struct EditMessageRequest {
    pub content: String,
}

/// A refusal of the request as unprocessable, with the message `m`.
pub open spec fn refused_with(r: Result<(), ApiError>, m: Seq<char>) -> bool {
    r matches Err(ApiError::UnprocessableEntity(t)) && t@ == m
}

/// Decides whether `message` may be regenerated, given the latest message of its
/// conversation: none is not found; another message than the latest, then a message
/// not written by the assistant, is unprocessable.
pub fn check_regenerate(message: &Message, latest: Option<&Message>) -> (r: Result<(), ApiError>)
    ensures
        r is Ok <==> (latest.is_some() && latest.unwrap().id == message.id && message.role
            == Role::Assistant),
        latest is None ==> r matches Err(ApiError::NotFound),
        latest.is_some() && latest.unwrap().id != message.id ==> refused_with(
            r,
            "only the latest message can be regenerated"@,
        ),
        latest.is_some() && latest.unwrap().id == message.id && message.role != Role::Assistant
            ==> refused_with(r, "only assistant messages can be regenerated"@),
{
    let latest = match latest {
        Some(l) => l,
        None => {
            return Err(ApiError::NotFound);
        },
    };
    if message.id != latest.id {
        return Err(
            ApiError::UnprocessableEntity("only the latest message can be regenerated".to_owned()),
        );
    }
    match message.role {
        Role::Assistant => Ok(()),
        _ => Err(
            ApiError::UnprocessableEntity("only assistant messages can be regenerated".to_owned()),
        ),
    }
}

/// Decides whether an edit of `message` to `content` may go on before the latest message
/// is looked up: empty content, then a message not written by the assistant, is
/// unprocessable.
pub fn check_edit(message: &Message, content: &str) -> (r: Result<(), ApiError>)
    ensures
        r is Ok <==> (content@.len() > 0 && message.role == Role::Assistant),
        content@.len() == 0 ==> refused_with(r, "content must not be empty"@),
        content@.len() > 0 && message.role != Role::Assistant ==> refused_with(
            r,
            "only assistant messages can be edited"@,
        ),
{
    if content.is_empty() {
        return Err(ApiError::UnprocessableEntity("content must not be empty".to_owned()));
    }
    match message.role {
        Role::Assistant => Ok(()),
        _ => Err(ApiError::UnprocessableEntity("only assistant messages can be edited".to_owned())),
    }
}

/// Decides whether the edited message is the latest of its conversation: none is not
/// found, another message is unprocessable.
pub fn check_edit_latest(message_id: u128, latest: Option<&Message>) -> (r: Result<(), ApiError>)
    ensures
        r is Ok <==> (latest.is_some() && latest.unwrap().id == message_id),
        latest is None ==> r matches Err(ApiError::NotFound),
        latest.is_some() && latest.unwrap().id != message_id ==> refused_with(
            r,
            "only latest message can be edited"@,
        ),
{
    match latest {
        None => Err(ApiError::NotFound),
        Some(l) => {
            if l.id == message_id {
                Ok(())
            } else {
                Err(ApiError::UnprocessableEntity("only latest message can be edited".to_owned()))
            }
        },
    }
}

/// The persona a regeneration prompts with: the stored persona, with the request's
/// instructions, where it gives some, as its post-history instructions.
pub open spec fn regenerated(persona: Persona, instructions: Option<String>) -> Persona {
    match instructions {
        Some(i) => Persona { post_history_instructions: i, ..persona },
        None => persona,
    }
}

/// The persona a regeneration prompts with (see `regenerated`).
pub fn regeneration_persona(persona: Persona, req: RegenerateMessageRequest) -> (p: Persona)
    ensures
        p == regenerated(persona, req.instructions),
{
    let mut persona = persona;
    if let Some(instructions) = req.instructions {
        persona.post_history_instructions = instructions;
    }
    persona
}

/// The prompt of a regeneration: the prompt of a reply to the messages that come before
/// the regenerated one, for the persona the request gives.
pub fn regeneration_prompt(
    persona: Persona,
    req: RegenerateMessageRequest,
    before: &[Message],
    summary: Option<&Summary>,
    user_name: &str,
) -> (r: Vec<OllamaMessage>)
    ensures
        message_views(r@) == prompt_blocks(
            regenerated(persona, req.instructions),
            before@,
            summary_content(summary),
            user_name@,
        ),
{
    let p = regeneration_persona(persona, req);
    build_prompt(&p, before, summary, user_name)
}

/// A regeneration note that is not blank closes the regeneration's prompt as a system
/// instruction; the stored messages do not hold it.
pub proof fn lemma_regeneration_note_closes_prompt(
    persona: Persona,
    note: String,
    before: Seq<Message>,
    summary: Option<Seq<char>>,
    user_name: Seq<char>,
)
    requires
        !is_blank(note@),
    ensures
        prompt_blocks(regenerated(persona, Some(note)), before, summary, user_name).last() == (
            "system"@,
            resolved(note@, persona.name@, user_name, persona.response_length_limit),
        ),
{
    lemma_prompt_frame(regenerated(persona, Some(note)), before, summary, user_name);
}

/// The message a user sends, stored under `id` without a token count.
pub fn user_message(id: u128, conversation_id: u128, content: String) -> (m: Message)
    ensures
        m == (Message { id, conversation_id, role: Role::User, content, token_count: None }),
{
    Message { id, conversation_id, role: Role::User, content, token_count: None }
}

/// The reply the assistant gives, stored under `id` with the number of tokens the model
/// evaluated for it, where the model told it.
pub fn assistant_message(id: u128, conversation_id: u128, content: String, eval_count: Option<u32>) -> (m: Message)
    ensures
        m.id == id,
        m.conversation_id == conversation_id,
        m.role == Role::Assistant,
        m.content == content,
        m.token_count == match eval_count {
            Some(n) => Some(n as i64),
            None => None::<i64>,
        },
{
    let token_count = match eval_count {
        Some(n) => Some(n as i64),
        None => None,
    };
    Message { id, conversation_id, role: Role::Assistant, content, token_count }
}

} // verus!
