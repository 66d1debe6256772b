use animus::db::RepoError;
use animus::domain::content_rating::ContentRating;
use animus::domain::persona::{CardImportError, Conversation, Message, Persona, Role, Summary};
use animus::domain::settings::AppSettings;
use animus::llm::ollama::{chunk_from_line, OllamaError, StreamChunk};
use animus::server::assets::{asset_extension, asset_file_name, parse_data_uri, split_data_uri, AssetKind};
use animus::server::conversations::{
    conversation_detail, conversation_list, conversation_response, message_detail, start_conversation,
};
use animus::server::error::ApiError;
use animus::server::messages::{
    assistant_message, check_edit, check_edit_latest, check_regenerate, regeneration_prompt,
    user_message, RegenerateMessageRequest,
};
use animus::server::personas::{
    apply_update_request, default_instruction_template, default_repeat_penalty_bits,
    default_response_length_limit, default_temperature_bits, deletion_outcome,
    persona_from_create_request, persona_list, validate_persona_name, CreatePersonaRequest,
    PersonaResponse, UpdatePersonaRequest,
};
use animus::server::settings::{
    apply_settings_patch, settings_response, validate_settings_patch, PatchSettingsRequest,
};
use animus::server::streaming::{after_save, token_frame, wants_event_stream, ReplyStream, StreamStep};
use animus::server::summary::summary_detail;
use animus::server::summary_trigger::{plan_summary, summary_from_plan, uncovered_query, UncoveredQuery};

fn persona(name: &str, first_message: &str) -> Persona {
    Persona {
        id: 0x11,
        name: name.to_owned(),
        description: String::new(),
        personality: String::new(),
        scenario: String::new(),
        first_message: first_message.to_owned(),
        message_example: String::new(),
        avatar_url: None,
        background_url: None,
        content_rating: ContentRating::Pg,
        model: None,
        raw_card: Some("card".to_owned()),
        model_instructions: String::new(),
        appearance: String::new(),
        speech_style: String::new(),
        character_goals: String::new(),
        post_history_instructions: String::new(),
        response_length_limit: 1200,
        temperature_bits: 0.65f64.to_bits(),
        repeat_penalty_bits: 1.12f64.to_bits(),
        instruction_template: "default".to_owned(),
    }
}

fn message(id: u128, role: Role, content: &str) -> Message {
    Message { id, conversation_id: 0xc0, role, content: content.to_owned(), token_count: None }
}

fn create_request(name: &str) -> CreatePersonaRequest {
    CreatePersonaRequest {
        name: name.to_owned(),
        description: "desc".to_owned(),
        personality: String::new(),
        scenario: String::new(),
        first_message: "Hi".to_owned(),
        message_example: String::new(),
        content_rating: None,
        model: None,
        avatar_url: Some("data:image/png;base64,AA==".to_owned()),
        background_url: None,
        model_instructions: "Stay in character".to_owned(),
        appearance: "Tall".to_owned(),
        speech_style: String::new(),
        character_goals: String::new(),
        post_history_instructions: String::new(),
        response_length_limit: default_response_length_limit(),
        temperature_bits: default_temperature_bits(),
        repeat_penalty_bits: default_repeat_penalty_bits(),
        instruction_template: default_instruction_template(),
    }
}

fn update_request(name: &str, rating: Option<ContentRating>) -> UpdatePersonaRequest {
    UpdatePersonaRequest {
        name: name.to_owned(),
        description: "new desc".to_owned(),
        personality: String::new(),
        scenario: String::new(),
        first_message: String::new(),
        message_example: String::new(),
        content_rating: rating,
        model: Some("mistral".to_owned()),
        avatar_url: None,
        background_url: None,
        model_instructions: String::new(),
        appearance: String::new(),
        speech_style: String::new(),
        character_goals: String::new(),
        post_history_instructions: String::new(),
        response_length_limit: 800,
        temperature_bits: 1.0f64.to_bits(),
        repeat_penalty_bits: 1.05f64.to_bits(),
        instruction_template: "nsfw".to_owned(),
    }
}

#[test]
fn bad_request_returns_400() {
    assert_eq!(ApiError::BadRequest("bad input".to_owned()).status_and_message(), (400, "bad input".to_owned()));
}

#[test]
fn not_found_returns_404() {
    assert_eq!(ApiError::NotFound.status_and_message(), (404, "not found".to_owned()));
}

#[test]
fn conflict_returns_409() {
    assert_eq!(ApiError::Conflict("dup".to_owned()).status_and_message(), (409, "dup".to_owned()));
}

#[test]
fn unprocessable_returns_422() {
    assert_eq!(ApiError::UnprocessableEntity("bad".to_owned()).status_and_message(), (422, "bad".to_owned()));
}

#[test]
fn other_errors_map_to_their_statuses() {
    assert_eq!(ApiError::Internal.status_and_message(), (500, "internal server error".to_owned()));
    assert_eq!(ApiError::ServiceUnavailable.status_and_message().0, 503);
    assert_eq!(ApiError::BadGateway.status_and_message().0, 502);
    assert_eq!(
        ApiError::from_repo_error(RepoError::Duplicate).status_and_message(),
        (409, "a persona with this name already exists".to_owned())
    );
    assert_eq!(ApiError::from_repo_error(RepoError::Db("x".to_owned())).status_and_message().0, 500);
    assert_eq!(
        ApiError::from_card_import_error(CardImportError::InvalidSpec("chara_card_v1".to_owned())).status_and_message(),
        (422, "invalid spec: chara_card_v1".to_owned())
    );
    assert_eq!(ApiError::from_card_import_error(CardImportError::Serialization("x".to_owned())).status_and_message().0, 500);
    assert_eq!(ApiError::from_ollama_error(&OllamaError::Network("down".to_owned())).status_and_message().0, 503);
    assert_eq!(ApiError::from_ollama_error(&OllamaError::Model("404".to_owned())).status_and_message().0, 502);
    assert_eq!(ApiError::from_ollama_error(&OllamaError::Parse("x".to_owned())).status_and_message().0, 500);
    assert_eq!(OllamaError::Model("Ollama returned 500".to_owned()).message(), "Model error: Ollama returned 500");
}

#[test]
fn create_empty_name_returns_422() {
    let err = persona_from_create_request(1, create_request("   ")).unwrap_err();
    assert_eq!(err.status_and_message(), (422, "name is required".to_owned()));
    assert!(validate_persona_name("").is_err());
    assert!(validate_persona_name("Aria").is_ok());
}

#[test]
fn create_wires_structured_fields() {
    let p = persona_from_create_request(5, create_request("Aria")).unwrap();
    assert_eq!(p.id, 5);
    assert_eq!(p.name, "Aria");
    assert_eq!(p.content_rating, ContentRating::Pg);
    assert_eq!(p.raw_card, None);
    assert_eq!(p.model_instructions, "Stay in character");
    assert_eq!(p.appearance, "Tall");
    assert_eq!(p.response_length_limit, 1200);
    assert_eq!(p.temperature_bits, 0.65f64.to_bits());
    assert_eq!(p.repeat_penalty_bits, 1.12f64.to_bits());
    assert_eq!(p.instruction_template, "default");
    assert_eq!(p.avatar_url.as_deref(), Some("data:image/png;base64,AA=="));
}

#[test]
fn patch_keeps_id_card_and_rating_when_absent() {
    let old = persona("Aria", "Hi");
    let updated = apply_update_request(old.clone(), update_request("Aria2", None));
    assert_eq!(updated.id, old.id);
    assert_eq!(updated.raw_card, old.raw_card);
    assert_eq!(updated.content_rating, ContentRating::Pg);
    assert_eq!(updated.name, "Aria2");
    assert_eq!(updated.model.as_deref(), Some("mistral"));
    assert_eq!(updated.instruction_template, "nsfw");
    let rated = apply_update_request(old, update_request("Aria", Some(ContentRating::Nsfw)));
    assert_eq!(rated.content_rating, ContentRating::Nsfw);
}

#[test]
fn persona_response_shows_every_field_but_the_card() {
    let p = persona("Aria", "Hi");
    let r = PersonaResponse::from_persona(&p);
    assert_eq!(r.id, "00000000-0000-0000-0000-000000000011");
    assert_eq!(r.name, "Aria");
    assert_eq!(r.temperature_bits, p.temperature_bits);
    let list = persona_list(&vec![persona("A", ""), persona("B", "")]);
    assert_eq!(list.len(), 2);
    assert_eq!(list[1].name, "B");
}

#[test]
fn delete_outcomes() {
    assert_eq!(deletion_outcome(true).ok(), Some(204));
    assert!(matches!(deletion_outcome(false), Err(ApiError::NotFound)));
}

#[test]
fn patch_updates_user_name_and_model() {
    let current = AppSettings { user_name: "User".to_owned(), default_model: "gemma4".to_owned() };
    let req = PatchSettingsRequest { user_name: Some("Bertrand".to_owned()), default_model: Some("mistral".to_owned()) };
    assert!(validate_settings_patch(&req).is_ok());
    let s = apply_settings_patch(current, req);
    assert_eq!(s.user_name, "Bertrand");
    assert_eq!(s.default_model, "mistral");
}

#[test]
fn patch_empty_user_name_returns_400() {
    let req = PatchSettingsRequest { user_name: Some(String::new()), default_model: None };
    let err = validate_settings_patch(&req).unwrap_err();
    assert_eq!(err.status_and_message(), (400, "user_name cannot be empty".to_owned()));
    let blank = PatchSettingsRequest { user_name: Some(" \n".to_owned()), default_model: None };
    assert!(validate_settings_patch(&blank).is_err());
}

#[test]
fn patch_partial_updates_preserve_other_fields() {
    let current = AppSettings { user_name: "User".to_owned(), default_model: "gemma4".to_owned() };
    let req = PatchSettingsRequest { user_name: Some("Alice".to_owned()), default_model: None };
    let s = apply_settings_patch(current, req);
    assert_eq!(s.user_name, "Alice");
    assert_eq!(s.default_model, "gemma4", "model must be preserved");
}

#[test]
fn get_returns_defaults_on_fresh_db() {
    let s = animus::db::settings_or_defaults(Some(AppSettings { user_name: "User".to_owned(), default_model: "gemma4".to_owned() }));
    let r = settings_response(s, "http://localhost:11434".to_owned(), "/tmp/assets".to_owned(), "/tmp/backups".to_owned());
    assert_eq!(r.user_name, "User");
    assert_eq!(r.default_model, "gemma4");
    assert_eq!(r.ollama_url, "http://localhost:11434");
}

#[test]
fn empty_patch_is_identity() {
    let current = AppSettings { user_name: "A".to_owned(), default_model: "m".to_owned() };
    let s = apply_settings_patch(current, PatchSettingsRequest { user_name: None, default_model: None });
    assert_eq!((s.user_name.as_str(), s.default_model.as_str()), ("A", "m"));
}

#[test]
fn message_non_latest_on_regenerate() {
    let target = message(1, Role::Assistant, "old");
    let latest = message(2, Role::User, "newer");
    let err = check_regenerate(&target, Some(&latest)).unwrap_err();
    assert_eq!(err.status_and_message(), (422, "only the latest message can be regenerated".to_owned()));
}

#[test]
fn regenerate_user_message() {
    let target = message(2, Role::User, "newer user reply");
    let err = check_regenerate(&target, Some(&target)).unwrap_err();
    assert_eq!(err.status_and_message(), (422, "only assistant messages can be regenerated".to_owned()));
}

#[test]
fn regenerate_latest_assistant_is_allowed() {
    let target = message(2, Role::Assistant, "reply");
    assert!(check_regenerate(&target, Some(&target)).is_ok());
    assert!(matches!(check_regenerate(&target, None), Err(ApiError::NotFound)));
}

#[test]
fn empty_content_on_edit_message() {
    let target = message(2, Role::Assistant, "reply");
    let err = check_edit(&target, "").unwrap_err();
    assert_eq!(err.status_and_message(), (422, "content must not be empty".to_owned()));
}

#[test]
fn user_message_on_edit_message() {
    let target = message(2, Role::User, "newer user reply");
    let err = check_edit(&target, "edited message!").unwrap_err();
    assert_eq!(err.status_and_message(), (422, "only assistant messages can be edited".to_owned()));
}

#[test]
fn non_latest_message_on_edit_message() {
    let latest = message(3, Role::Assistant, "newer assistant reply");
    let err = check_edit_latest(1, Some(&latest)).unwrap_err();
    assert_eq!(err.status_and_message(), (422, "only latest message can be edited".to_owned()));
    assert!(check_edit_latest(3, Some(&latest)).is_ok());
    assert!(matches!(check_edit_latest(3, None), Err(ApiError::NotFound)));
}

#[test]
fn regeneration_note_closes_the_prompt() {
    let p = persona("Alice", "Hello, I am {{char}}");
    let before = vec![message(1, Role::Assistant, "Hello"), message(2, Role::User, "Hi")];
    let req = RegenerateMessageRequest { instructions: Some("make it shorter, {{user}}".to_owned()) };
    let prompt = regeneration_prompt(p.clone(), req, &before, None, "Bob");
    let last = prompt.last().unwrap();
    assert_eq!(last.role, "system");
    assert_eq!(last.content, "make it shorter, Bob");
    let plain = regeneration_prompt(p, RegenerateMessageRequest { instructions: None }, &before, None, "Bob");
    assert_eq!(plain.last().unwrap().role, "user");
}

#[test]
fn post_conversation_placeholder_replaced() {
    let p = persona("Alice", "Hello {{user}}, I am {{char}}. I speak {{response_length_example}}.");
    let (conv, first) = start_conversation(&p, "User", 0xa, 0xb, 1700000000);
    assert_eq!((conv.id, conv.persona_id, conv.created_at), (0xa, 0x11, 1700000000));
    assert_eq!(first.content, "Hello User, I am Alice. I speak about 300 words.");
    assert_eq!(first.role, Role::Assistant);
    assert_eq!(first.conversation_id, 0xa);
    let r = conversation_response(&conv, first.content.clone());
    assert_eq!(r.id, "00000000-0000-0000-0000-00000000000a");
    assert_eq!(r.persona_id, "00000000-0000-0000-0000-000000000011");
}

#[test]
fn get_conversation_returns_messages() {
    let conv = Conversation { id: 0xc0, persona_id: 0x11, created_at: 5 };
    let msgs = vec![message(1, Role::Assistant, "Hey!")];
    let d = conversation_detail(&conv, &msgs);
    assert_eq!(d.messages.len(), 1);
    assert_eq!(d.messages[0].role, "assistant");
    assert_eq!(d.messages[0].content, "Hey!");
    assert_eq!(d.created_at, 5);
}

#[test]
fn list_conversations_unknown_persona_returns_null() {
    assert!(conversation_list(None).conversation.is_none());
    let c = conversation_list(Some(Conversation { id: 1, persona_id: 2, created_at: 3 })).conversation.unwrap();
    assert_eq!(c.id, "00000000-0000-0000-0000-000000000001");
    assert_eq!(c.created_at, 3);
}

#[test]
fn turn_messages_carry_their_roles() {
    let u = user_message(1, 2, "hi".to_owned());
    assert_eq!((u.role, u.token_count), (Role::User, None));
    let a = assistant_message(3, 2, "hello".to_owned(), Some(17));
    assert_eq!((a.role, a.token_count), (Role::Assistant, Some(17)));
    let d = message_detail(&a);
    assert_eq!((d.role.as_str(), d.content.as_str()), ("assistant", "hello"));
}

#[test]
fn stream_gathers_tokens_and_saves_reply() {
    let mut s = ReplyStream::new();
    match s.step(Ok(StreamChunk::Token("Hel\"lo".to_owned()))) {
        StreamStep::Send(f) => {
            assert_eq!(f.event, "token");
            assert_eq!(f.data, "{\"text\":\"Hel\\\"lo\"}");
        }
        _ => panic!("a token is sent on"),
    }
    let _ = s.step(Ok(StreamChunk::Token(" world\n".to_owned())));
    match s.step(Ok(StreamChunk::Done { eval_count: 12 })) {
        StreamStep::Save { content, eval_count } => {
            assert_eq!(content, "Hel\"lo world\n");
            assert_eq!(eval_count, 12);
        }
        _ => panic!("the end of the stream saves the reply"),
    }
    match s.step(Err(OllamaError::Parse("bad".to_owned()))) {
        StreamStep::Stop(f) => {
            assert_eq!(f.event, "error");
            assert_eq!(f.data, "{\"message\":\"stream error\"}");
        }
        _ => panic!("a failure stops the stream"),
    }
}

#[test]
fn token_frames_escape_json() {
    assert_eq!(token_frame("a\\b\tc\u{1}").data, "{\"text\":\"a\\\\b\\tc\\u0001\"}");
    assert_eq!(token_frame("é").data, "{\"text\":\"é\"}");
}

#[test]
fn done_and_save_error_frames() {
    let f = after_save(Some(0x0190_0000_0000_7000_8000_0000_0000_00ff));
    assert_eq!(f.event, "done");
    assert_eq!(f.data, "{\"message_id\":\"01900000-0000-7000-8000-0000000000ff\"}");
    let e = after_save(None);
    assert_eq!((e.event.as_str(), e.data.as_str()), ("error", "{\"message\":\"Failed to persist message\"}"));
}

#[test]
fn accept_header_selects_streaming() {
    assert!(wants_event_stream(Some("text/event-stream")));
    assert!(!wants_event_stream(Some("application/json")));
    assert!(!wants_event_stream(None));
}

#[test]
fn stream_lines_become_chunks() {
    assert!(matches!(chunk_from_line(false, "tok".to_owned(), None), StreamChunk::Token(ref t) if t == "tok"));
    assert!(matches!(chunk_from_line(true, String::new(), Some(7)), StreamChunk::Done { eval_count: 7 }));
    assert!(matches!(chunk_from_line(true, String::new(), None), StreamChunk::Done { eval_count: 0 }));
}

#[test]
fn get_summary_unknown_conversation_returns_404() {
    assert!(matches!(summary_detail(1, false, None), Err(ApiError::NotFound)));
}

#[test]
fn get_summary_no_summary_returns_null_fields() {
    let d = summary_detail(1, true, None).unwrap();
    assert!(d.id.is_none());
    assert!(d.content.is_none());
    assert_eq!(d.conversation_id, "00000000-0000-0000-0000-000000000001");
}

#[test]
fn get_summary_returns_summary_with_metadata() {
    let s = Summary { id: 9, conversation_id: 1, content: "a quick summary".to_owned(), message_range_start: 2, message_range_end: 3, created_at: 77 };
    let d = summary_detail(1, true, Some(s)).unwrap();
    assert_eq!(d.id.as_deref(), Some("00000000-0000-0000-0000-000000000009"));
    assert_eq!(d.content.as_deref(), Some("a quick summary"));
    assert_eq!(d.message_range_start.as_deref(), Some("00000000-0000-0000-0000-000000000002"));
    assert_eq!(d.message_range_end.as_deref(), Some("00000000-0000-0000-0000-000000000003"));
    assert_eq!(d.created_at, Some(77));
}

#[test]
fn summary_waits_for_twenty_uncovered_messages() {
    let msgs: Vec<Message> = (0..19).map(|i| message(i, Role::User, "x")).collect();
    assert!(plan_summary(None, &msgs).is_none());
    assert_eq!(uncovered_query(None), UncoveredQuery::All);
}

#[test]
fn summary_plan_lists_messages_after_previous_summary() {
    let msgs: Vec<Message> = (0..20)
        .map(|i| message(100 + i, if i % 2 == 0 { Role::User } else { Role::Assistant }, "m"))
        .collect();
    let prev = Summary { id: 1, conversation_id: 0xc0, content: "Earlier.".to_owned(), message_range_start: 10, message_range_end: 99, created_at: 0 };
    assert_eq!(uncovered_query(Some(&prev)), UncoveredQuery::After(99));
    let plan = plan_summary(Some(&prev), &msgs).unwrap();
    assert_eq!(plan.range_start, 100);
    assert_eq!(plan.range_end, 119);
    assert!(plan.prompt.starts_with("You are summarizing a roleplay conversation.\nRespond in 3-5 sentences maximum."));
    assert!(plan.prompt.contains("\n\nPrevious summary:\nEarlier.\n\nMessages to summarize:\nUSER: m\nASSISTANT: m\n"));
    assert!(plan.prompt.ends_with("ASSISTANT: m\n"));
    let s = summary_from_plan(5, 0xc0, "New.".to_owned(), &plan, 8);
    assert_eq!((s.message_range_start, s.message_range_end, s.content.as_str()), (100, 119, "New."));
}

#[test]
fn parse_data_uri_decodes_base64_bytes() {
    let (mime_type, bytes) = parse_data_uri("data:image/png;base64,aGVsbG8gd29ybGQ=").expect("parse data URI");

    assert_eq!(mime_type, "image/png");
    assert_eq!(bytes, b"hello world");
}

#[test]
fn parse_data_uri_refuses_bad_shapes() {
    assert!(parse_data_uri("image/png;base64,aGk=").is_none());
    assert!(parse_data_uri("data:image/png,aGk=").is_none());
    assert!(parse_data_uri("data:image/png;base64,!!!").is_none());
    assert_eq!(split_data_uri("data:;base64,;base64,x"), Some((String::new(), ";base64,x".to_owned())));
}

#[test]
fn asset_names_follow_kind_and_type() {
    assert_eq!(asset_file_name(AssetKind::Avatar, "image/png").as_deref(), Some("avatar.png"));
    assert_eq!(asset_file_name(AssetKind::Background, "image/jpeg").as_deref(), Some("background.jpg"));
    assert_eq!(asset_extension("image/webp"), Some("webp"));
    assert_eq!(asset_file_name(AssetKind::Avatar, "image/gif"), None);
}

#[test]
fn applying_a_patch_twice_changes_nothing_more() {
    let current = AppSettings { user_name: "User".to_owned(), default_model: "gemma4".to_owned() };
    let once = apply_settings_patch(
        current,
        PatchSettingsRequest { user_name: Some("Ann".to_owned()), default_model: None },
    );
    let twice = apply_settings_patch(
        once.clone(),
        PatchSettingsRequest { user_name: Some("Ann".to_owned()), default_model: None },
    );
    assert_eq!((once.user_name.as_str(), once.default_model.as_str()), ("Ann", "gemma4"));
    assert_eq!((twice.user_name.as_str(), twice.default_model.as_str()), ("Ann", "gemma4"));
}
