use animus::db::rows::{ConversationRow, DecodeError, MessageRow, PersonaRow, SummaryRow};
use animus::db::{role_to_str, settings_or_defaults, str_to_role};
use animus::domain::character_card::{CardExtensions, CharacterCardV2, CharacterCardV2Data};
use animus::domain::content_rating::ContentRating;
use animus::domain::persona::{CardImportError, Conversation, Message, Persona, Role, Summary};
use animus::domain::settings::AppSettings;

fn card(spec: &str, name: &str, first_mes: &str, rating: Option<&str>) -> CharacterCardV2 {
    CharacterCardV2 {
        spec: spec.to_owned(),
        spec_version: "2.0".to_owned(),
        data: CharacterCardV2Data {
            name: name.to_owned(),
            description: String::new(),
            personality: String::new(),
            scenario: String::new(),
            first_mes: first_mes.to_owned(),
            mes_example: String::new(),
            creator_notes: String::new(),
            tags: Vec::new(),
            extensions: CardExtensions { content_rating: rating.map(|r| r.to_owned()) },
        },
    }
}

fn sample_persona() -> Persona {
    Persona {
        id: 0x0190_0000_0000_7000_8000_0000_0000_0001,
        name: "Aria".to_owned(),
        description: "A helpful AI".to_owned(),
        personality: "Calm".to_owned(),
        scenario: "Library".to_owned(),
        first_message: "Hello!".to_owned(),
        message_example: String::new(),
        avatar_url: None,
        background_url: Some("bg.png".to_owned()),
        content_rating: ContentRating::Mature,
        model: Some("mistral".to_owned()),
        raw_card: None,
        model_instructions: "Be brief".to_owned(),
        appearance: String::new(),
        speech_style: "Terse".to_owned(),
        character_goals: String::new(),
        post_history_instructions: String::new(),
        response_length_limit: 900,
        temperature_bits: 0.8f64.to_bits(),
        repeat_penalty_bits: 1.08f64.to_bits(),
        instruction_template: "custom".to_owned(),
    }
}

#[test]
fn content_rating_from_str_pg() {
    let r: ContentRating = "pg".parse().unwrap();
    assert_eq!(r, ContentRating::Pg);
}

#[test]
fn content_rating_from_str_nsfw() {
    let r: ContentRating = "nsfw".parse().unwrap();
    assert_eq!(r, ContentRating::Nsfw);
}

#[test]
fn content_rating_from_str_unknown_defaults_pg() {
    let r: ContentRating = "unknown".parse().unwrap_or(ContentRating::Pg);
    assert_eq!(r, ContentRating::Pg);
}

#[test]
fn content_rating_roundtrip_serde() {
    let json = serde_json::to_string(ContentRating::Mature.as_str()).unwrap();
    let text: String = serde_json::from_str(&json).unwrap();
    let back: ContentRating = text.parse().unwrap();
    assert_eq!(back, ContentRating::Mature);
}

#[test]
fn content_rating_parse_ignores_case_and_reports_lowered_text() {
    assert_eq!(ContentRating::parse("MaTuRe").unwrap(), ContentRating::Mature);
    let err = ContentRating::parse("Spicy").unwrap_err();
    assert_eq!(err.0, "spicy");
    assert_eq!(err.message(), "unknown content rating: spicy");
}

#[test]
fn parse_minimal_character_card_v2() {
    let card = card("chara_card_v2", "Aria", "Hello, how can I help?", None);
    assert_eq!(card.data.name, "Aria");
    assert_eq!(card.data.content_rating(), ContentRating::Pg);
}

#[test]
fn parse_card_with_nsfw_extension() {
    let card = card("chara_card_v2", "Aria", "", Some("nsfw"));
    assert_eq!(card.data.content_rating(), ContentRating::Nsfw);
}

#[test]
fn card_with_unknown_rating_defaults_to_pg() {
    let unknown = card("chara_card_v2", "Aria", "", Some("extreme"));
    assert_eq!(unknown.data.content_rating(), ContentRating::Pg);
    let upper = card("chara_card_v2", "Aria", "", Some("MATURE"));
    assert_eq!(upper.data.content_rating(), ContentRating::Mature);
}

#[test]
fn try_from_valid_card() {
    let card = card("chara_card_v2", "Aria", "Hello!", None);
    let persona = Persona::try_from_card(card, Ok("{\"spec\":\"chara_card_v2\"}".to_owned())).unwrap();
    assert_eq!(persona.name, "Aria");
    assert_eq!(persona.first_message, "Hello!");
    assert_eq!(persona.content_rating, ContentRating::Pg);
    assert!(persona.raw_card.is_some());
    assert_eq!(persona.instruction_template, "default");
    assert_eq!(persona.response_length_limit, 1200);
    assert_eq!(persona.temperature_bits, 0.65f64.to_bits());
    assert_eq!(persona.repeat_penalty_bits, 1.12f64.to_bits());
    assert_eq!(uuid::Uuid::from_u128(persona.id).get_version_num(), 7);
}

#[test]
fn try_from_invalid_spec_returns_error() {
    let card = card("chara_card_v1", "Old", "", None);
    let err = Persona::try_from_card(card, Ok("{}".to_owned())).unwrap_err();
    assert!(matches!(err, CardImportError::InvalidSpec(ref s) if s == "chara_card_v1"));
}

#[test]
fn try_from_nsfw_card() {
    let card = card("chara_card_v2", "Aria", "", Some("nsfw"));
    let persona = Persona::try_from_card(card, Ok("{}".to_owned())).unwrap();
    assert_eq!(persona.content_rating, ContentRating::Nsfw);
}

#[test]
fn import_keeps_serialized_card_and_reports_serializer_error() {
    let c = card("chara_card_v2", "Aria", "", None);
    let p = Persona::from_card_with_id(c, 42, Ok("RAW".to_owned())).unwrap();
    assert_eq!(p.id, 42);
    assert_eq!(p.raw_card.as_deref(), Some("RAW"));
    let c = card("chara_card_v2", "Aria", "", None);
    let e = Persona::from_card_with_id(c, 42, Err("boom".to_owned())).unwrap_err();
    assert!(matches!(e, CardImportError::Serialization(ref m) if m == "boom"));
}

#[test]
fn roles_roundtrip() {
    for role in [Role::User, Role::Assistant, Role::System] {
        assert_eq!(str_to_role(role_to_str(&role)), Ok(role));
        assert_eq!(role.as_str(), role_to_str(&role));
    }
    assert_eq!(Role::Assistant.as_upper_str(), "ASSISTANT");
    assert_eq!(str_to_role("robot"), Err("unknown role: robot".to_owned()));
}

#[test]
fn persona_row_reads_back_as_the_same_persona() {
    let p = sample_persona();
    let row = PersonaRow::from_persona(&p);
    assert_eq!(row.id, "01900000-0000-7000-8000-000000000001");
    assert_eq!(row.content_rating, "mature");
    let back = row.into_persona().unwrap();
    assert_eq!(back.id, p.id);
    assert_eq!(back.name, p.name);
    assert_eq!(back.content_rating, p.content_rating);
    assert_eq!(back.background_url, p.background_url);
    assert_eq!(back.temperature_bits, p.temperature_bits);
    assert_eq!(back.instruction_template, p.instruction_template);
}

#[test]
fn persona_row_with_bad_columns_is_refused() {
    let mut row = PersonaRow::from_persona(&sample_persona());
    row.content_rating = "Spicy".to_owned();
    assert!(matches!(row.clone().into_persona(), Err(DecodeError::ContentRating(ref t)) if t == "spicy"));
    row.id = "not-a-uuid".to_owned();
    assert!(matches!(row.into_persona(), Err(DecodeError::Uuid(ref t)) if t == "not-a-uuid"));
    let mut row = PersonaRow::from_persona(&sample_persona());
    row.content_rating = "NSFW".to_owned();
    assert_eq!(row.into_persona().unwrap().content_rating, ContentRating::Nsfw);
}

#[test]
fn message_row_roundtrip_and_bad_role() {
    let m = Message { id: 7, conversation_id: 9, role: Role::Assistant, content: "hi".to_owned(), token_count: Some(3) };
    let row = MessageRow::from_message(&m);
    assert_eq!(row.role, "assistant");
    let back = row.clone().into_message().unwrap();
    assert_eq!((back.id, back.conversation_id, back.role, back.content.as_str(), back.token_count), (7, 9, Role::Assistant, "hi", Some(3)));
    let mut bad = row;
    bad.role = "robot".to_owned();
    assert!(matches!(bad.into_message(), Err(DecodeError::Role(ref t)) if t == "unknown role: robot"));
}

#[test]
fn conversation_and_summary_rows_roundtrip() {
    let c = Conversation { id: 1, persona_id: 2, created_at: 1700000000 };
    let back = ConversationRow::from_conversation(&c).into_conversation().unwrap();
    assert_eq!((back.id, back.persona_id, back.created_at), (1, 2, 1700000000));
    let s = Summary { id: 3, conversation_id: 1, content: "so far".to_owned(), message_range_start: 4, message_range_end: 5, created_at: 6 };
    let row = SummaryRow::from_summary(&s);
    assert_eq!(row.message_range_end, "00000000-0000-0000-0000-000000000005");
    let back = row.into_summary().unwrap();
    assert_eq!((back.id, back.message_range_start, back.message_range_end, back.content.as_str()), (3, 4, 5, "so far"));
    let bad = ConversationRow { id: "x".to_owned(), persona_id: "y".to_owned(), created_at: 0 };
    assert!(matches!(bad.into_conversation(), Err(DecodeError::Uuid(ref t)) if t == "x"));
}

#[test]
fn settings_default_when_row_absent() {
    let s = settings_or_defaults(None);
    assert_eq!(s.user_name, "User");
    assert_eq!(s.default_model, "");
    let stored = AppSettings { user_name: "Bertrand".to_owned(), default_model: "mistral".to_owned() };
    let s = settings_or_defaults(Some(stored));
    assert_eq!((s.user_name.as_str(), s.default_model.as_str()), ("Bertrand", "mistral"));
}
