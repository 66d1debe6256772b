//! Personas, conversations, messages and summaries.
use vstd::prelude::*;
use crate::domain::character_card::CharacterCardV2;
use crate::domain::content_rating::ContentRating;

verus! {

/// Default response length limit, in characters.
pub const DEFAULT_RESPONSE_LENGTH_LIMIT: i64 = 1200;

/// Default sampling temperature (0.65), as its IEEE-754 binary64 bit pattern.
pub const DEFAULT_TEMPERATURE_BITS: u64 = 0x3fe4cccccccccccd;

/// Default repeat penalty (1.12), as its IEEE-754 binary64 bit pattern.
pub const DEFAULT_REPEAT_PENALTY_BITS: u64 = 0x3ff1eb851eb851ec;

/// The spec a Character Card must carry to be imported.
pub open spec fn card_v2_spec() -> Seq<char> {
    "chara_card_v2"@
}

/// The name of the default instruction template.
pub open spec fn default_template_name() -> Seq<char> {
    "default"@
}

/// A character definition with its generation settings.
///
/// The ids are UUID values; `temperature_bits` and `repeat_penalty_bits` hold the
/// IEEE-754 binary64 bit patterns of the sampling parameters, which no logic of the
/// library reads.
#[derive(Debug, Clone)]
pub struct Persona {
    pub id: u128,
    pub name: String,
    pub description: String,
    pub personality: String,
    pub scenario: String,
    pub first_message: String,
    pub message_example: String,
    pub avatar_url: Option<String>,
    pub background_url: Option<String>,
    pub content_rating: ContentRating,
    pub model: Option<String>,
    pub raw_card: Option<String>,
    pub model_instructions: String,
    pub appearance: String,
    pub speech_style: String,
    pub character_goals: String,
    pub post_history_instructions: String,
    pub response_length_limit: i64,
    pub temperature_bits: u64,
    pub repeat_penalty_bits: u64,
    pub instruction_template: String,
}

/// Why a Character Card could not be turned into a persona.
#[derive(Debug)]
pub enum CardImportError {
    /// The card's spec is not `chara_card_v2`; holds the spec found.
    InvalidSpec(String),
    /// The card could not be serialized; holds the serializer's message.
    Serialization(String),
}

/// Who wrote a message.
#[derive(Debug, Clone, Copy, PartialEq, Eq, Structural)]
pub enum Role {
    User,
    Assistant,
    System,
}

/// The lower-case text form of a role.
pub open spec fn role_text(r: Role) -> Seq<char> {
    match r {
        Role::User => "user"@,
        Role::Assistant => "assistant"@,
        Role::System => "system"@,
    }
}

/// The upper-case text form of a role.
pub open spec fn role_upper_text(r: Role) -> Seq<char> {
    match r {
        Role::User => "USER"@,
        Role::Assistant => "ASSISTANT"@,
        Role::System => "SYSTEM"@,
    }
}

/// The role whose text form is exactly `s`, if any.
pub open spec fn role_from_text(s: Seq<char>) -> Option<Role> {
    if s == "user"@ {
        Some(Role::User)
    } else if s == "assistant"@ {
        Some(Role::Assistant)
    } else if s == "system"@ {
        Some(Role::System)
    } else {
        None
    }
}

impl Role {
    /// The role's lower-case text form, as its `Display` writes it.
    pub fn as_str(&self) -> (r: &'static str)
        ensures
            r@ == role_text(*self),
    {
        match self {
            Role::User => "user",
            Role::Assistant => "assistant",
            Role::System => "system",
        }
    }

    /// The role's upper-case text form.
    pub fn as_upper_str(&self) -> (r: &'static str)
        ensures
            r@ == role_upper_text(*self),
    {
        match self {
            Role::User => "USER",
            Role::Assistant => "ASSISTANT",
            Role::System => "SYSTEM",
        }
    }

    /// The role's text form, as an owned `String`.
    pub fn to_text(&self) -> (r: String)
        ensures
            r@ == role_text(*self),
    {
        self.as_str().to_owned()
    }
}

/// The role text of each role reads back as that role.
pub proof fn lemma_role_text_roundtrip(r: Role)
    ensures
        role_from_text(role_text(r)) == Some(r),
{
    reveal_strlit("user");
    reveal_strlit("assistant");
    reveal_strlit("system");
    if r != Role::User {
        assert(role_text(r) != "user"@) by {
            assert(role_text(r).len() != 4);
        }
    }
    if r == Role::System {
        assert(role_text(r) != "assistant"@) by {
            assert(role_text(r).len() != 9);
        }
    }
}

/// A message of a conversation.
#[derive(Debug, Clone)]
pub struct Message {
    pub id: u128,
    pub conversation_id: u128,
    pub role: Role,
    pub content: String,
    pub token_count: Option<i64>,
}

/// A chat session with a persona.
#[derive(Debug, Clone)]
pub struct Conversation {
    pub id: u128,
    pub persona_id: u128,
    pub created_at: i64,
}

/// A compressed record of the earlier messages of a conversation.
#[derive(Debug, Clone)]
pub struct Summary {
    pub id: u128,
    pub conversation_id: u128,
    pub content: String,
    pub message_range_start: u128,
    pub message_range_end: u128,
    pub created_at: i64,
}

/// The persona that a valid card gives, under the id `id` and with `raw` as its raw card.
pub open spec fn persona_from_card(card: CharacterCardV2, id: u128, raw: Seq<char>, p: Persona) -> bool {
    &&& p.id == id
    &&& p.name@ == card.data.name@
    &&& p.description@ == card.data.description@
    &&& p.personality@ == card.data.personality@
    &&& p.scenario@ == card.data.scenario@
    &&& p.first_message@ == card.data.first_mes@
    &&& p.message_example@ == card.data.mes_example@
    &&& p.avatar_url is None
    &&& p.background_url is None
    &&& p.content_rating == card.data.spec_content_rating()
    &&& p.model is None
    &&& p.raw_card matches Some(r) && r@ == raw
    &&& p.model_instructions@.len() == 0
    &&& p.appearance@.len() == 0
    &&& p.speech_style@.len() == 0
    &&& p.character_goals@.len() == 0
    &&& p.post_history_instructions@.len() == 0
    &&& p.response_length_limit == DEFAULT_RESPONSE_LENGTH_LIMIT
    &&& p.temperature_bits == DEFAULT_TEMPERATURE_BITS
    &&& p.repeat_penalty_bits == DEFAULT_REPEAT_PENALTY_BITS
    &&& p.instruction_template@ == default_template_name()
}

impl Persona {
    /// Imports a Character Card as a persona with the id `id`.
    ///
    /// `serialized` is the card's JSON serialization (or the serializer's error), which
    /// becomes the persona's raw card. A card whose spec is not `chara_card_v2` is refused
    /// first; the structured fields take their defaults.
    pub fn from_card_with_id(card: CharacterCardV2, id: u128, serialized: Result<String, String>) -> (r: Result<Persona, CardImportError>)
        ensures
            card.spec@ != card_v2_spec() <==> r matches Err(CardImportError::InvalidSpec(_)),
            r matches Err(CardImportError::InvalidSpec(s)) ==> s@ == card.spec@,
            card.spec@ == card_v2_spec() ==> match serialized {
                Ok(raw) => r matches Ok(p) && persona_from_card(card, id, raw@, p),
                Err(e) => r matches Err(CardImportError::Serialization(m)) && m@ == e@,
            },
    {
        if !crate::text::str_eq(card.spec.as_str(), "chara_card_v2") {
            return Err(CardImportError::InvalidSpec(card.spec));
        }
        let raw = match serialized {
            Ok(raw) => raw,
            Err(e) => {
                return Err(CardImportError::Serialization(e));
            },
        };
        let content_rating = card.data.content_rating();
        Ok(Persona {
            id,
            name: card.data.name,
            description: card.data.description,
            personality: card.data.personality,
            scenario: card.data.scenario,
            first_message: card.data.first_mes,
            message_example: card.data.mes_example,
            avatar_url: None,
            background_url: None,
            content_rating,
            model: None,
            raw_card: Some(raw),
            model_instructions: String::new(),
            appearance: String::new(),
            speech_style: String::new(),
            character_goals: String::new(),
            post_history_instructions: String::new(),
            response_length_limit: DEFAULT_RESPONSE_LENGTH_LIMIT,
            temperature_bits: DEFAULT_TEMPERATURE_BITS,
            repeat_penalty_bits: DEFAULT_REPEAT_PENALTY_BITS,
            instruction_template: "default".to_owned(),
        })
    }

    /// Imports a Character Card as a persona with a fresh version-7 id (see
    /// `from_card_with_id`; the id depends on the clock and on chance).
    pub fn try_from_card(card: CharacterCardV2, serialized: Result<String, String>) -> (r: Result<Persona, CardImportError>)
        ensures
            r matches Ok(p) ==> crate::ids::is_v7(p.id),
            card.spec@ != card_v2_spec() <==> r matches Err(CardImportError::InvalidSpec(_)),
            r matches Err(CardImportError::InvalidSpec(s)) ==> s@ == card.spec@,
            card.spec@ == card_v2_spec() ==> match serialized {
                Ok(raw) => r matches Ok(p) && persona_from_card(card, p.id, raw@, p),
                Err(e) => r matches Err(CardImportError::Serialization(m)) && m@ == e@,
            },
    {
        let id = crate::ids::new_v7_id();
        Persona::from_card_with_id(card, id, serialized)
    }
}

/// An imported persona carries the card's character text unchanged: its name,
/// description, personality, scenario, first message and message example are the card's
/// `name`, `description`, `personality`, `scenario`, `first_mes` and `mes_example`; the
/// rating is the card's; its raw card is the card's serialization; nothing else comes from
/// the card, and two imports of cards with the same data under the same id and raw text
/// give the same persona.
pub proof fn lemma_import_keeps_card_text(
    card: CharacterCardV2,
    id: u128,
    raw: Seq<char>,
    p: Persona,
    other: CharacterCardV2,
    q: Persona,
)
    requires
        persona_from_card(card, id, raw, p),
        persona_from_card(other, id, raw, q),
        other.data == card.data,
    ensures
        p.id == id,
        p.name@ == card.data.name@,
        p.description@ == card.data.description@,
        p.personality@ == card.data.personality@,
        p.scenario@ == card.data.scenario@,
        p.first_message@ == card.data.first_mes@,
        p.message_example@ == card.data.mes_example@,
        p.content_rating == card.data.spec_content_rating(),
        p.raw_card matches Some(r) && r@ == raw,
        p.name@ == q.name@ && p.description@ == q.description@ && p.personality@
            == q.personality@ && p.scenario@ == q.scenario@ && p.first_message@
            == q.first_message@ && p.message_example@ == q.message_example@,
        p.content_rating == q.content_rating,
{
}

} // verus!
