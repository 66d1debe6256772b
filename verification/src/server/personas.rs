//! Persona requests and responses, and the decisions of the persona endpoints.
use vstd::prelude::*;
use crate::domain::content_rating::ContentRating;
use crate::domain::persona::{
    DEFAULT_REPEAT_PENALTY_BITS, DEFAULT_RESPONSE_LENGTH_LIMIT, DEFAULT_TEMPERATURE_BITS, Persona,
    default_template_name,
};
use crate::ids::{uuid_text, uuid_to_string};
use crate::server::error::ApiError;
use crate::text::{blank, is_blank};

verus! {

/// The body of a persona creation. The sampling parameters are IEEE-754 binary64 bit
/// patterns.
#[derive(Debug, Clone)]
pub struct CreatePersonaRequest {
    pub name: String,
    pub description: String,
    pub personality: String,
    pub scenario: String,
    pub first_message: String,
    pub message_example: String,
    pub content_rating: Option<ContentRating>,
    pub model: Option<String>,
    pub avatar_url: Option<String>,
    pub background_url: Option<String>,
    pub model_instructions: String,
    pub appearance: String,
    pub speech_style: String,
    pub character_goals: String,
    pub post_history_instructions: String,
    pub response_length_limit: i64,
    pub temperature_bits: u64,
    pub repeat_penalty_bits: u64,
    pub instruction_template: String,
}

/// The body of a persona update; it replaces every field, and keeps the rating when
/// none is given.
#[derive(Debug, Clone)]
pub struct UpdatePersonaRequest {
    pub name: String,
    pub description: String,
    pub personality: String,
    pub scenario: String,
    pub first_message: String,
    pub message_example: String,
    pub content_rating: Option<ContentRating>,
    pub model: Option<String>,
    pub avatar_url: Option<String>,
    pub background_url: Option<String>,
    pub model_instructions: String,
    pub appearance: String,
    pub speech_style: String,
    pub character_goals: String,
    pub post_history_instructions: String,
    pub response_length_limit: i64,
    pub temperature_bits: u64,
    pub repeat_penalty_bits: u64,
    pub instruction_template: String,
}

/// A persona as the API answers it; `id` is the UUID's text form.
#[derive(Debug, Clone)]
pub struct PersonaResponse {
    pub id: String,
    pub name: String,
    pub description: String,
    pub personality: String,
    pub scenario: String,
    pub first_message: String,
    pub message_example: String,
    pub avatar_url: Option<String>,
    pub background_url: Option<String>,
    pub content_rating: ContentRating,
    pub model: Option<String>,
    pub model_instructions: String,
    pub appearance: String,
    pub speech_style: String,
    pub character_goals: String,
    pub post_history_instructions: String,
    pub response_length_limit: i64,
    pub temperature_bits: u64,
    pub repeat_penalty_bits: u64,
    pub instruction_template: String,
}

/// The response length limit a request gets when it gives none.
pub fn default_response_length_limit() -> (r: i64)
    ensures
        r == DEFAULT_RESPONSE_LENGTH_LIMIT,
{
    DEFAULT_RESPONSE_LENGTH_LIMIT
}

/// The temperature a request gets when it gives none, as a bit pattern.
pub fn default_temperature_bits() -> (r: u64)
    ensures
        r == DEFAULT_TEMPERATURE_BITS,
{
    DEFAULT_TEMPERATURE_BITS
}

/// The repeat penalty a request gets when it gives none, as a bit pattern.
pub fn default_repeat_penalty_bits() -> (r: u64)
    ensures
        r == DEFAULT_REPEAT_PENALTY_BITS,
{
    DEFAULT_REPEAT_PENALTY_BITS
}

/// The instruction template a request gets when it gives none: `default`.
pub fn default_instruction_template() -> (r: String)
    ensures
        r@ == default_template_name(),
{
    "default".to_owned()
}

/// The error that a blank persona name gets.
pub open spec fn name_required(e: ApiError) -> bool {
    e matches ApiError::UnprocessableEntity(m) && m@ == "name is required"@
}

/// Refuses a name that is empty or only whitespace.
pub fn validate_persona_name(name: &str) -> (r: Result<(), ApiError>)
    ensures
        r is Err <==> is_blank(name@),
        r matches Err(e) ==> name_required(e),
{
    if blank(name) {
        Err(ApiError::UnprocessableEntity("name is required".to_owned()))
    } else {
        Ok(())
    }
}

/// The persona that a creation request describes, under the id `id`.
pub open spec fn created_from(id: u128, req: CreatePersonaRequest, p: Persona) -> bool {
    &&& p.id == id
    &&& p.name == req.name
    &&& p.description == req.description
    &&& p.personality == req.personality
    &&& p.scenario == req.scenario
    &&& p.first_message == req.first_message
    &&& p.message_example == req.message_example
    &&& p.avatar_url == req.avatar_url
    &&& p.background_url == req.background_url
    &&& p.content_rating == match req.content_rating {
        Some(cr) => cr,
        None => ContentRating::Pg,
    }
    &&& p.model == req.model
    &&& p.raw_card is None
    &&& p.model_instructions == req.model_instructions
    &&& p.appearance == req.appearance
    &&& p.speech_style == req.speech_style
    &&& p.character_goals == req.character_goals
    &&& p.post_history_instructions == req.post_history_instructions
    &&& p.response_length_limit == req.response_length_limit
    &&& p.temperature_bits == req.temperature_bits
    &&& p.repeat_penalty_bits == req.repeat_penalty_bits
    &&& p.instruction_template == req.instruction_template
}

/// The persona a creation request makes, with the id `id`; a blank name is refused.
pub fn persona_from_create_request(id: u128, req: CreatePersonaRequest) -> (r: Result<Persona, ApiError>)
    ensures
        r is Err <==> is_blank(req.name@),
        r matches Err(e) ==> name_required(e),
        r matches Ok(p) ==> created_from(id, req, p),
{
    validate_persona_name(req.name.as_str())?;
    let content_rating = match req.content_rating {
        Some(cr) => cr,
        None => ContentRating::Pg,
    };
    Ok(Persona {
        id,
        name: req.name,
        description: req.description,
        personality: req.personality,
        scenario: req.scenario,
        first_message: req.first_message,
        message_example: req.message_example,
        avatar_url: req.avatar_url,
        background_url: req.background_url,
        content_rating,
        model: req.model,
        raw_card: None,
        model_instructions: req.model_instructions,
        appearance: req.appearance,
        speech_style: req.speech_style,
        character_goals: req.character_goals,
        post_history_instructions: req.post_history_instructions,
        response_length_limit: req.response_length_limit,
        temperature_bits: req.temperature_bits,
        repeat_penalty_bits: req.repeat_penalty_bits,
        instruction_template: req.instruction_template,
    })
}

/// The persona that an update request makes of `old`: every field from the request,
/// except the id and raw card, which stay, and the rating, which stays when the request
/// gives none.
pub open spec fn updated_from(old: Persona, req: UpdatePersonaRequest, p: Persona) -> bool {
    &&& p.id == old.id
    &&& p.name == req.name
    &&& p.description == req.description
    &&& p.personality == req.personality
    &&& p.scenario == req.scenario
    &&& p.first_message == req.first_message
    &&& p.message_example == req.message_example
    &&& p.avatar_url == req.avatar_url
    &&& p.background_url == req.background_url
    &&& p.content_rating == match req.content_rating {
        Some(cr) => cr,
        None => old.content_rating,
    }
    &&& p.model == req.model
    &&& p.raw_card == old.raw_card
    &&& p.model_instructions == req.model_instructions
    &&& p.appearance == req.appearance
    &&& p.speech_style == req.speech_style
    &&& p.character_goals == req.character_goals
    &&& p.post_history_instructions == req.post_history_instructions
    &&& p.response_length_limit == req.response_length_limit
    &&& p.temperature_bits == req.temperature_bits
    &&& p.repeat_penalty_bits == req.repeat_penalty_bits
    &&& p.instruction_template == req.instruction_template
}

/// Applies an update request to a stored persona.
pub fn apply_update_request(persona: Persona, req: UpdatePersonaRequest) -> (p: Persona)
    ensures
        updated_from(persona, req, p),
{
    let mut persona = persona;
    persona.name = req.name;
    persona.description = req.description;
    persona.personality = req.personality;
    persona.scenario = req.scenario;
    persona.first_message = req.first_message;
    persona.message_example = req.message_example;
    if let Some(cr) = req.content_rating {
        persona.content_rating = cr;
    }
    persona.model = req.model;
    persona.avatar_url = req.avatar_url;
    persona.background_url = req.background_url;
    persona.model_instructions = req.model_instructions;
    persona.appearance = req.appearance;
    persona.speech_style = req.speech_style;
    persona.character_goals = req.character_goals;
    persona.post_history_instructions = req.post_history_instructions;
    persona.response_length_limit = req.response_length_limit;
    persona.temperature_bits = req.temperature_bits;
    persona.repeat_penalty_bits = req.repeat_penalty_bits;
    persona.instruction_template = req.instruction_template;
    persona
}

/// The response for a persona: every field but the raw card, with the id as text.
pub open spec fn response_of(p: Persona, r: PersonaResponse) -> bool {
    &&& r.id@ == uuid_text(p.id)
    &&& r.name == p.name
    &&& r.description == p.description
    &&& r.personality == p.personality
    &&& r.scenario == p.scenario
    &&& r.first_message == p.first_message
    &&& r.message_example == p.message_example
    &&& r.avatar_url == p.avatar_url
    &&& r.background_url == p.background_url
    &&& r.content_rating == p.content_rating
    &&& r.model == p.model
    &&& r.model_instructions == p.model_instructions
    &&& r.appearance == p.appearance
    &&& r.speech_style == p.speech_style
    &&& r.character_goals == p.character_goals
    &&& r.post_history_instructions == p.post_history_instructions
    &&& r.response_length_limit == p.response_length_limit
    &&& r.temperature_bits == p.temperature_bits
    &&& r.repeat_penalty_bits == p.repeat_penalty_bits
    &&& r.instruction_template == p.instruction_template
}

impl PersonaResponse {
    /// The API form of a persona.
    pub fn from_persona(p: &Persona) -> (r: PersonaResponse)
        ensures
            response_of(*p, r),
    {
        PersonaResponse {
            id: uuid_to_string(p.id),
            name: p.name.clone(),
            description: p.description.clone(),
            personality: p.personality.clone(),
            scenario: p.scenario.clone(),
            first_message: p.first_message.clone(),
            message_example: p.message_example.clone(),
            avatar_url: crate::text::clone_opt(&p.avatar_url),
            background_url: crate::text::clone_opt(&p.background_url),
            content_rating: p.content_rating,
            model: crate::text::clone_opt(&p.model),
            model_instructions: p.model_instructions.clone(),
            appearance: p.appearance.clone(),
            speech_style: p.speech_style.clone(),
            character_goals: p.character_goals.clone(),
            post_history_instructions: p.post_history_instructions.clone(),
            response_length_limit: p.response_length_limit,
            temperature_bits: p.temperature_bits,
            repeat_penalty_bits: p.repeat_penalty_bits,
            instruction_template: p.instruction_template.clone(),
        }
    }
}

/// The answer to a listing of personas: each of them, in the order given.
pub fn persona_list(personas: &Vec<Persona>) -> (r: Vec<PersonaResponse>)
    ensures
        r.len() == personas.len(),
        forall|i: int| 0 <= i < personas.len() ==> #[trigger] response_of(personas@[i], r@[i]),
{
    let mut out: Vec<PersonaResponse> = Vec::new();
    let n = personas.len();
    for i in 0..n
        invariant
            n == personas.len(),
            out.len() == i,
            forall|k: int| 0 <= k < i ==> #[trigger] response_of(personas@[k], out@[k]),
    {
        out.push(PersonaResponse::from_persona(&personas[i]));
    }
    out
}

/// The answer to a persona deletion: no content when a persona was deleted, not found
/// otherwise.
pub fn deletion_outcome(found: bool) -> (r: Result<u16, ApiError>)
    ensures
        found ==> r == Ok::<u16, ApiError>(204),
        !found ==> r matches Err(ApiError::NotFound),
{
    if found {
        Ok(204)
    } else {
        Err(ApiError::NotFound)
    }
}

/// An update replaces every field that the request carries: after it, each of them equals
/// the request's value, so no stored text survives an update; only the id and the raw
/// card are kept, and the rating when the request gives none. Hence two stored personas
/// with the same id, raw card and rating are updated by one request to the same persona.
pub proof fn lemma_update_takes_request_fields(
    old: Persona,
    other: Persona,
    req: UpdatePersonaRequest,
    p: Persona,
    q: Persona,
)
    requires
        updated_from(old, req, p),
        updated_from(other, req, q),
        other.id == old.id,
        other.raw_card == old.raw_card,
        other.content_rating == old.content_rating,
    ensures
        p.id == old.id,
        p.raw_card == old.raw_card,
        p.name == req.name,
        p.description == req.description,
        p.personality == req.personality,
        p.scenario == req.scenario,
        p.first_message == req.first_message,
        p.message_example == req.message_example,
        p.avatar_url == req.avatar_url,
        p.background_url == req.background_url,
        p.model == req.model,
        p.model_instructions == req.model_instructions,
        p.appearance == req.appearance,
        p.speech_style == req.speech_style,
        p.character_goals == req.character_goals,
        p.post_history_instructions == req.post_history_instructions,
        p.response_length_limit == req.response_length_limit,
        p.temperature_bits == req.temperature_bits,
        p.repeat_penalty_bits == req.repeat_penalty_bits,
        p.instruction_template == req.instruction_template,
        req.content_rating matches Some(cr) ==> p.content_rating == cr,
        req.content_rating is None ==> p.content_rating == old.content_rating,
        p == q,
{
}

} // verus!
