//! The rows of the database tables, and how the library's values are written to and
//! read back from them. Ids are stored in their hyphenated text form, roles and ratings
//! in their lower-case text form.
use vstd::prelude::*;
use crate::db::str_to_role;
use crate::domain::content_rating::{
    ContentRating, ascii_lowered, lemma_rating_text_roundtrip, lowercase, rating_from_lower,
    rating_text,
};
use crate::domain::persona::{
    Conversation, Message, Persona, Role, Summary, lemma_role_text_roundtrip, role_from_text,
    role_text,
};
use crate::ids::{parse_uuid, uuid_parsed, uuid_text, uuid_to_string};
use vstd::utf8::is_ascii_chars;

verus! {

broadcast use vstd::string::group_string_axioms;

/// Why a stored row could not be read back.
#[derive(Debug)]
pub enum DecodeError {
    /// A column that should hold a UUID holds this text.
    Uuid(String),
    /// The content rating column holds no rating; holds the lower-cased text.
    ContentRating(String),
    /// The role column holds no role; holds the error text.
    Role(String),
}

/// A row of the `personas` table. The sampling parameters are the IEEE-754 binary64 bit
/// patterns of the stored reals.
#[derive(Debug, Clone)]
pub struct PersonaRow {
    pub id: String,
    pub name: String,
    pub description: String,
    pub personality: String,
    pub scenario: String,
    pub first_message: String,
    pub message_example: String,
    pub avatar_url: Option<String>,
    pub background_url: Option<String>,
    pub content_rating: String,
    pub model: Option<String>,
    pub raw_card: Option<String>,
    pub model_instructions: String,
    pub appearance: String,
    pub speech_style: String,
    pub character_goals: String,
    pub post_history_instructions: String,
    pub response_length_limit: i64,
    pub temperature_bits: u64,
    pub repeat_penalty_bits: u64,
    pub instruction_template: String,
}

/// A row of the `messages` table.
#[derive(Debug, Clone)]
pub struct MessageRow {
    pub id: String,
    pub conversation_id: String,
    pub role: String,
    pub content: String,
    pub token_count: Option<i64>,
}

/// A row of the `conversations` table.
#[derive(Debug, Clone)]
pub struct ConversationRow {
    pub id: String,
    pub persona_id: String,
    pub created_at: i64,
}

/// A row of the `summaries` table.
#[derive(Debug, Clone)]
pub struct SummaryRow {
    pub id: String,
    pub conversation_id: String,
    pub content: String,
    pub message_range_start: String,
    pub message_range_end: String,
    pub created_at: i64,
}

/// Reads an id column.
pub fn decode_uuid(s: &str) -> (r: Result<u128, DecodeError>)
    ensures
        match uuid_parsed(s@) {
            Some(id) => r == Ok::<u128, DecodeError>(id),
            None => r matches Err(DecodeError::Uuid(t)) && t@ == s@,
        },
        forall|id: u128| #[trigger] uuid_text(id) == s@ ==> r == Ok::<u128, DecodeError>(id),
{
    match parse_uuid(s) {
        Some(id) => Ok(id),
        None => Err(DecodeError::Uuid(s.to_owned())),
    }
}

/// The rating a stored rating text names, read case-insensitively.
pub open spec fn stored_rating(s: Seq<char>) -> Option<ContentRating> {
    rating_from_lower(lowercase(s))
}

/// The row a persona is stored as.
pub open spec fn persona_stored_as(p: Persona, row: PersonaRow) -> bool {
    &&& row.id@ == uuid_text(p.id)
    &&& row.name == p.name
    &&& row.description == p.description
    &&& row.personality == p.personality
    &&& row.scenario == p.scenario
    &&& row.first_message == p.first_message
    &&& row.message_example == p.message_example
    &&& row.avatar_url == p.avatar_url
    &&& row.background_url == p.background_url
    &&& row.content_rating@ == rating_text(p.content_rating)
    &&& row.model == p.model
    &&& row.raw_card == p.raw_card
    &&& row.model_instructions == p.model_instructions
    &&& row.appearance == p.appearance
    &&& row.speech_style == p.speech_style
    &&& row.character_goals == p.character_goals
    &&& row.post_history_instructions == p.post_history_instructions
    &&& row.response_length_limit == p.response_length_limit
    &&& row.temperature_bits == p.temperature_bits
    &&& row.repeat_penalty_bits == p.repeat_penalty_bits
    &&& row.instruction_template == p.instruction_template
}

/// The persona a row reads back as, where its id and rating can be read: every column
/// as it is, the id parsed and the rating read case-insensitively.
pub open spec fn persona_read_from(row: PersonaRow, p: Persona) -> bool {
    &&& uuid_parsed(row.id@) == Some(p.id)
    &&& stored_rating(row.content_rating@) == Some(p.content_rating)
    &&& p.name == row.name
    &&& p.description == row.description
    &&& p.personality == row.personality
    &&& p.scenario == row.scenario
    &&& p.first_message == row.first_message
    &&& p.message_example == row.message_example
    &&& p.avatar_url == row.avatar_url
    &&& p.background_url == row.background_url
    &&& p.model == row.model
    &&& p.raw_card == row.raw_card
    &&& p.model_instructions == row.model_instructions
    &&& p.appearance == row.appearance
    &&& p.speech_style == row.speech_style
    &&& p.character_goals == row.character_goals
    &&& p.post_history_instructions == row.post_history_instructions
    &&& p.response_length_limit == row.response_length_limit
    &&& p.temperature_bits == row.temperature_bits
    &&& p.repeat_penalty_bits == row.repeat_penalty_bits
    &&& p.instruction_template == row.instruction_template
}

impl PersonaRow {
    /// The row a persona is written as.
    pub fn from_persona(p: &Persona) -> (row: PersonaRow)
        ensures
            persona_stored_as(*p, row),
    {
        PersonaRow {
            id: uuid_to_string(p.id),
            name: p.name.clone(),
            description: p.description.clone(),
            personality: p.personality.clone(),
            scenario: p.scenario.clone(),
            first_message: p.first_message.clone(),
            message_example: p.message_example.clone(),
            avatar_url: crate::text::clone_opt(&p.avatar_url),
            background_url: crate::text::clone_opt(&p.background_url),
            content_rating: p.content_rating.as_str().to_owned(),
            model: crate::text::clone_opt(&p.model),
            raw_card: crate::text::clone_opt(&p.raw_card),
            model_instructions: p.model_instructions.clone(),
            appearance: p.appearance.clone(),
            speech_style: p.speech_style.clone(),
            character_goals: p.character_goals.clone(),
            post_history_instructions: p.post_history_instructions.clone(),
            response_length_limit: p.response_length_limit,
            temperature_bits: p.temperature_bits,
            repeat_penalty_bits: p.repeat_penalty_bits,
            instruction_template: p.instruction_template.clone(),
        }
    }

    /// Reads the row back as a persona: a bad id, then a bad rating, is an error.
    pub fn into_persona(self) -> (r: Result<Persona, DecodeError>)
        ensures
            uuid_parsed(self.id@) is None ==> (r matches Err(DecodeError::Uuid(t)) && t@ == self.id@),
            uuid_parsed(self.id@) is Some && stored_rating(self.content_rating@) is None
                ==> (r matches Err(DecodeError::ContentRating(t)) && t@ == lowercase(
                self.content_rating@,
            )),
            r is Ok <==> (uuid_parsed(self.id@) is Some && stored_rating(self.content_rating@) is Some),
            r matches Ok(p) ==> persona_read_from(self, p),
            forall|p: Persona| #[trigger] persona_stored_as(p, self) ==> r == Ok::<Persona, DecodeError>(p),
    {
        proof {
            assert forall|c: ContentRating|
                is_ascii_chars(#[trigger] rating_text(c)) && ascii_lowered(rating_text(c)) == rating_text(c)
                    && rating_from_lower(rating_text(c)) == Some(c) by {
                lemma_rating_text_roundtrip(c);
            }
        }
        let id = decode_uuid(self.id.as_str())?;
        let content_rating = match ContentRating::parse(self.content_rating.as_str()) {
            Ok(cr) => cr,
            Err(e) => {
                return Err(DecodeError::ContentRating(e.0));
            },
        };
        Ok(
            Persona {
                id,
                name: self.name,
                description: self.description,
                personality: self.personality,
                scenario: self.scenario,
                first_message: self.first_message,
                message_example: self.message_example,
                avatar_url: self.avatar_url,
                background_url: self.background_url,
                content_rating,
                model: self.model,
                raw_card: self.raw_card,
                model_instructions: self.model_instructions,
                appearance: self.appearance,
                speech_style: self.speech_style,
                character_goals: self.character_goals,
                post_history_instructions: self.post_history_instructions,
                response_length_limit: self.response_length_limit,
                temperature_bits: self.temperature_bits,
                repeat_penalty_bits: self.repeat_penalty_bits,
                instruction_template: self.instruction_template,
            },
        )
    }
}

/// The row a message is stored as.
pub open spec fn message_stored_as(m: Message, row: MessageRow) -> bool {
    &&& row.id@ == uuid_text(m.id)
    &&& row.conversation_id@ == uuid_text(m.conversation_id)
    &&& row.role@ == role_text(m.role)
    &&& row.content == m.content
    &&& row.token_count == m.token_count
}

/// The row a conversation is stored as.
pub open spec fn conversation_stored_as(c: Conversation, row: ConversationRow) -> bool {
    &&& row.id@ == uuid_text(c.id)
    &&& row.persona_id@ == uuid_text(c.persona_id)
    &&& row.created_at == c.created_at
}

/// The row a summary is stored as.
pub open spec fn summary_stored_as(s: Summary, row: SummaryRow) -> bool {
    &&& row.id@ == uuid_text(s.id)
    &&& row.conversation_id@ == uuid_text(s.conversation_id)
    &&& row.content == s.content
    &&& row.message_range_start@ == uuid_text(s.message_range_start)
    &&& row.message_range_end@ == uuid_text(s.message_range_end)
    &&& row.created_at == s.created_at
}

impl MessageRow {
    /// The row a message is written as.
    pub fn from_message(m: &Message) -> (row: MessageRow)
        ensures
            message_stored_as(*m, row),
    {
        MessageRow {
            id: uuid_to_string(m.id),
            conversation_id: uuid_to_string(m.conversation_id),
            role: crate::db::role_to_str(&m.role).to_owned(),
            content: m.content.clone(),
            token_count: m.token_count,
        }
    }

    /// Reads the row back as a message: a bad id, then a bad conversation id, then a
    /// bad role, is an error.
    pub fn into_message(self) -> (r: Result<Message, DecodeError>)
        ensures
            r is Ok <==> (uuid_parsed(self.id@) is Some && uuid_parsed(self.conversation_id@) is Some
                && role_from_text(self.role@) is Some),
            uuid_parsed(self.id@) is None ==> (r matches Err(DecodeError::Uuid(t)) && t@ == self.id@),
            uuid_parsed(self.id@) is Some && uuid_parsed(self.conversation_id@) is None ==> (r matches Err(
                DecodeError::Uuid(t),
            ) && t@ == self.conversation_id@),
            uuid_parsed(self.id@) is Some && uuid_parsed(self.conversation_id@) is Some
                && role_from_text(self.role@) is None ==> (r matches Err(DecodeError::Role(t)) && t@
                == "unknown role: "@ + self.role@),
            r matches Ok(m) ==> {
                &&& uuid_parsed(self.id@) == Some(m.id)
                &&& uuid_parsed(self.conversation_id@) == Some(m.conversation_id)
                &&& role_from_text(self.role@) == Some(m.role)
                &&& m.content == self.content
                &&& m.token_count == self.token_count
            },
            forall|m: Message| #[trigger] message_stored_as(m, self) ==> r == Ok::<Message, DecodeError>(m),
    {
        proof {
            assert forall|role: Role| role_from_text(#[trigger] role_text(role)) == Some(role) by {
                lemma_role_text_roundtrip(role);
            }
        }
        let id = decode_uuid(self.id.as_str())?;
        let conversation_id = decode_uuid(self.conversation_id.as_str())?;
        let role = match str_to_role(self.role.as_str()) {
            Ok(role) => role,
            Err(e) => {
                return Err(DecodeError::Role(e));
            },
        };
        Ok(Message { id, conversation_id, role, content: self.content, token_count: self.token_count })
    }
}

impl ConversationRow {
    /// The row a conversation is written as.
    pub fn from_conversation(c: &Conversation) -> (row: ConversationRow)
        ensures
            conversation_stored_as(*c, row),
    {
        ConversationRow {
            id: uuid_to_string(c.id),
            persona_id: uuid_to_string(c.persona_id),
            created_at: c.created_at,
        }
    }

    /// Reads the row back as a conversation: a bad id, then a bad persona id, is an error.
    pub fn into_conversation(self) -> (r: Result<Conversation, DecodeError>)
        ensures
            r is Ok <==> (uuid_parsed(self.id@) is Some && uuid_parsed(self.persona_id@) is Some),
            uuid_parsed(self.id@) is None ==> (r matches Err(DecodeError::Uuid(t)) && t@ == self.id@),
            uuid_parsed(self.id@) is Some && uuid_parsed(self.persona_id@) is None ==> (r matches Err(
                DecodeError::Uuid(t),
            ) && t@ == self.persona_id@),
            r matches Ok(c) ==> {
                &&& uuid_parsed(self.id@) == Some(c.id)
                &&& uuid_parsed(self.persona_id@) == Some(c.persona_id)
                &&& c.created_at == self.created_at
            },
            forall|c: Conversation| #[trigger] conversation_stored_as(c, self) ==> r == Ok::<
                Conversation,
                DecodeError,
            >(c),
    {
        let id = decode_uuid(self.id.as_str())?;
        let persona_id = decode_uuid(self.persona_id.as_str())?;
        Ok(Conversation { id, persona_id, created_at: self.created_at })
    }
}

impl SummaryRow {
    /// The row a summary is written as.
    pub fn from_summary(s: &Summary) -> (row: SummaryRow)
        ensures
            summary_stored_as(*s, row),
    {
        SummaryRow {
            id: uuid_to_string(s.id),
            conversation_id: uuid_to_string(s.conversation_id),
            content: s.content.clone(),
            message_range_start: uuid_to_string(s.message_range_start),
            message_range_end: uuid_to_string(s.message_range_end),
            created_at: s.created_at,
        }
    }

    /// Reads the row back as a summary: each id column in turn must hold a UUID.
    pub fn into_summary(self) -> (r: Result<Summary, DecodeError>)
        ensures
            r is Ok <==> (uuid_parsed(self.id@) is Some && uuid_parsed(self.conversation_id@) is Some
                && uuid_parsed(self.message_range_start@) is Some && uuid_parsed(
                self.message_range_end@,
            ) is Some),
            uuid_parsed(self.id@) is None ==> (r matches Err(DecodeError::Uuid(t)) && t@ == self.id@),
            uuid_parsed(self.id@) is Some && uuid_parsed(self.conversation_id@) is None ==> (r matches Err(
                DecodeError::Uuid(t),
            ) && t@ == self.conversation_id@),
            uuid_parsed(self.id@) is Some && uuid_parsed(self.conversation_id@) is Some && uuid_parsed(
                self.message_range_start@,
            ) is None ==> (r matches Err(DecodeError::Uuid(t)) && t@ == self.message_range_start@),
            uuid_parsed(self.id@) is Some && uuid_parsed(self.conversation_id@) is Some && uuid_parsed(
                self.message_range_start@,
            ) is Some && uuid_parsed(self.message_range_end@) is None ==> (r matches Err(
                DecodeError::Uuid(t),
            ) && t@ == self.message_range_end@),
            r matches Ok(s) ==> {
                &&& uuid_parsed(self.id@) == Some(s.id)
                &&& uuid_parsed(self.conversation_id@) == Some(s.conversation_id)
                &&& s.content == self.content
                &&& uuid_parsed(self.message_range_start@) == Some(s.message_range_start)
                &&& uuid_parsed(self.message_range_end@) == Some(s.message_range_end)
                &&& s.created_at == self.created_at
            },
            forall|s: Summary| #[trigger] summary_stored_as(s, self) ==> r == Ok::<Summary, DecodeError>(s),
    {
        let id = decode_uuid(self.id.as_str())?;
        let conversation_id = decode_uuid(self.conversation_id.as_str())?;
        let message_range_start = decode_uuid(self.message_range_start.as_str())?;
        let message_range_end = decode_uuid(self.message_range_end.as_str())?;
        Ok(
            Summary {
                id,
                conversation_id,
                content: self.content,
                message_range_start,
                message_range_end,
                created_at: self.created_at,
            },
        )
    }
}

} // verus!
