use animus::domain::content_rating::ContentRating;
use animus::domain::persona::{Message, Persona, Role, Summary};
use animus::llm::ollama::{messages_to_prompt, num_predict_for_char_limits};
use animus::llm::prompt::{
    build_prompt, build_system_block, default_template, nsfw_template, resolve_placeholders,
    select_template, should_include_first_message, OllamaMessage, PromptTraceFields,
};

fn new_id() -> u128 {
    uuid::Uuid::now_v7().as_u128()
}

fn create_test_persona() -> Persona {
    Persona {
        id: new_id(),
        name: "TestPersona".to_string(),
        description: "Test description".to_string(),
        personality: "Friendly and helpful".to_string(),
        scenario: "Test".to_string(),
        first_message: "Test".to_string(),
        message_example: "Test".to_string(),
        avatar_url: Some("Test".to_string()),
        background_url: Some("Test".to_string()),
        content_rating: ContentRating::Pg,
        model: Some("Test".to_string()),
        raw_card: Some("Test".to_string()),
        model_instructions: String::new(),
        appearance: String::new(),
        speech_style: String::new(),
        character_goals: String::new(),
        post_history_instructions: String::new(),
        response_length_limit: 1200,
        temperature_bits: 0.65f64.to_bits(),
        repeat_penalty_bits: 1.12f64.to_bits(),
        instruction_template: "default".to_owned(),
    }
}

fn create_test_message(role: Role, content: &str) -> Message {
    Message {
        id: new_id(),
        conversation_id: new_id(),
        role,
        content: content.to_string(),
        token_count: Some(0),
    }
}

fn create_messages(count: usize, start_with_assistant: bool) -> Vec<Message> {
    let mut messages: Vec<Message> = Vec::new();
    for i in 0..count {
        let role = if (i % 2 == 0) == start_with_assistant {
            Role::Assistant
        } else {
            Role::User
        };
        messages.push(create_test_message(role, &format!("Message {}", i + 1)));
    }
    messages
}

fn test_summary(content: &str) -> Summary {
    Summary {
        id: new_id(),
        conversation_id: new_id(),
        content: content.to_string(),
        message_range_start: new_id(),
        message_range_end: new_id(),
        created_at: 0,
    }
}

#[test]
fn prompt_trace_fields_report_structured_field_presence() {
    let mut persona = create_test_persona();
    persona.model_instructions = "Stay in character".to_owned();
    persona.speech_style = "Short sentences".to_owned();
    persona.response_length_limit = 900;
    persona.instruction_template = "cinematic".to_owned();
    let messages = create_messages(3, false);

    let fields = PromptTraceFields::from_inputs(&persona, &messages, true);

    assert_eq!(
        fields,
        PromptTraceFields {
            message_count: 3,
            has_summary: true,
            has_model_instructions: true,
            has_appearance: false,
            has_speech_style: true,
            has_character_goals: false,
            has_post_history_instructions: false,
            instruction_template: "cinematic".to_owned(),
            response_length_limit: 900,
        }
    );
}

#[test]
fn resolve_placeholders_replaces_all_known_tokens() {
    let result = resolve_placeholders(
        "Hello {{char}}, I am {{user}}. Limit: {{response_length_limit}}. Example: {{response_length_example}}.",
        "Aria",
        "Bertrand",
        1200,
    );
    assert_eq!(
        result,
        "Hello Aria, I am Bertrand. Limit: 1200. Example: about 300 words."
    );
}

#[test]
fn resolve_placeholders_response_length_example_is_human_readable() {
    let result = resolve_placeholders("{{response_length_example}}", "X", "Y", 800);
    assert_eq!(result, "about 200 words");
}

#[test]
fn select_template_default_returns_default_template() {
    let mut persona = create_test_persona();
    persona.instruction_template = "default".to_owned();
    persona.content_rating = ContentRating::Nsfw; // content_rating must NOT affect selection
    assert_eq!(select_template(&persona), default_template());
}

#[test]
fn select_template_nsfw_returns_nsfw_template() {
    let mut persona = create_test_persona();
    persona.instruction_template = "nsfw".to_owned();
    assert_eq!(select_template(&persona), nsfw_template());
}

#[test]
fn select_template_custom_returns_model_instructions() {
    let mut persona = create_test_persona();
    persona.instruction_template = "custom".to_owned();
    persona.model_instructions = "My custom instructions.".to_owned();
    assert_eq!(select_template(&persona), "My custom instructions.");
}

#[test]
fn select_template_unknown_value_falls_back_to_model_instructions() {
    let mut persona = create_test_persona();
    persona.instruction_template = "cinematic".to_owned();
    persona.model_instructions = "Cinematic custom instructions.".to_owned();
    assert_eq!(
        select_template(&persona),
        "Cinematic custom instructions.",
        "unknown instruction_template must use model_instructions, not silently drop them"
    );
}

#[test]
fn custom_template_not_overridden_by_nsfw_persona() {
    let mut persona = create_test_persona();
    persona.content_rating = ContentRating::Nsfw;
    persona.instruction_template = "custom".to_owned();
    persona.model_instructions = "Custom style only.".to_owned();

    let system = build_system_block(&persona, "User");

    assert!(
        system.contains("Custom style only."),
        "custom model_instructions should be used"
    );
    assert!(
        !system.contains("mature, intimate"),
        "NSFW template must not be injected when instruction_template=custom"
    );
}

#[test]
fn system_block_has_required_sections() {
    let persona = create_test_persona();
    let block = build_system_block(&persona, "User");

    assert!(block.contains("# Role"), "missing # Role");
    assert!(block.contains("# Model Instructions"), "missing # Model Instructions");
    assert!(block.contains("# Response Contract"), "missing # Response Contract");
}

#[test]
fn system_block_omits_empty_optional_sections() {
    let mut persona = create_test_persona();
    persona.appearance = String::new();
    persona.description = String::new();
    persona.personality = String::new();
    persona.speech_style = String::new();
    persona.scenario = String::new();
    persona.character_goals = String::new();
    persona.message_example = String::new();

    let block = build_system_block(&persona, "User");

    assert!(!block.contains("# Character"), "# Character should be omitted when all sub-fields empty");
    assert!(!block.contains("# Scenario"), "# Scenario should be omitted when empty");
    assert!(!block.contains("# Character Goals"), "# Character Goals should be omitted when empty");
    assert!(!block.contains("# Style Examples"), "# Style Examples should be omitted when empty");
}

#[test]
fn system_block_includes_optional_sections_when_populated() {
    let mut persona = create_test_persona();
    persona.appearance = "Tall, dark hair.".to_owned();
    persona.speech_style = "Terse.".to_owned();
    persona.scenario = "A rainy city.".to_owned();
    persona.character_goals = "Protect the guild.".to_owned();
    persona.message_example = "Example reply.".to_owned();

    let block = build_system_block(&persona, "User");

    assert!(block.contains("# Character"));
    assert!(block.contains("Appearance:"));
    assert!(block.contains("Speech Style:"));
    assert!(block.contains("# Scenario"));
    assert!(block.contains("# Character Goals"));
    assert!(block.contains("# Style Examples"));
    assert!(block.contains("Use these as style references"));
}

#[test]
fn system_block_no_unresolved_placeholders() {
    let mut persona = create_test_persona();
    persona.description = "{{char}} is mysterious.".to_owned();
    persona.character_goals = "Please {{user}} always.".to_owned();

    let block = build_system_block(&persona, "Alice");

    assert!(
        !block.contains("{{"),
        "unresolved placeholder found in system block: {block}"
    );
}

#[test]
fn system_block_resolves_char_and_user_placeholders() {
    let mut persona = create_test_persona();
    persona.name = "Aria".to_owned();

    let block = build_system_block(&persona, "Bertrand");

    assert!(block.contains("You are Aria."));
    assert!(block.contains("Aria"));
    assert!(!block.contains("{{char}}"));
    assert!(!block.contains("{{user}}"));
}

#[test]
fn system_block_response_contract_uses_limit() {
    let mut persona = create_test_persona();
    persona.response_length_limit = 800;

    let block = build_system_block(&persona, "User");

    assert!(block.contains("# Response Contract"));
    assert!(block.contains("800 characters"));
    assert!(block.contains("about 200 words"));
}

#[test]
fn test_build_prompt_new_conversation() {
    let persona = create_test_persona();
    let messages = vec![create_test_message(
        Role::Assistant,
        "Hello, how are you today ?",
    )];
    let result = build_prompt(&persona, &messages, None, "User");

    assert_eq!(result.len(), 2, "new conversation -> system + first message");

    assert_eq!(result[0].role, "system");
    assert!(result[0].content.contains("# Role"));
    assert!(result[0].content.contains("TestPersona"));

    assert_eq!(result[1].role, "assistant");
    assert_eq!(result[1].content, "Hello, how are you today ?");
}

#[test]
fn test_build_prompt_existing_conversation() {
    let persona = create_test_persona();
    let messages = create_messages(12, true);
    let result = build_prompt(&persona, &messages, None, "User");

    assert_eq!(result.len(), 11, "system + 10 last messages");

    assert_eq!(result[0].role, "system");

    let history = &result[1..];
    assert_eq!(history[0].content, "Message 3");
    assert_eq!(history[9].content, "Message 12");

    for (i, msg) in history.iter().enumerate() {
        assert_eq!(
            msg.role,
            if i % 2 == 0 {
                Role::Assistant.to_text()
            } else {
                Role::User.to_text()
            }
        );
    }
}

#[test]
fn test_build_prompt_with_summary() {
    let persona = create_test_persona();
    let messages = vec![create_test_message(Role::Assistant, "Hello")];
    let summary = test_summary("Résumé de la conversation précédente.");

    let result = build_prompt(&persona, &messages, Some(&summary), "User");

    assert_eq!(result.len(), 3);
    assert_eq!(result[0].role, "system");
    assert_eq!(result[1].role, "system");
    assert_eq!(result[2].role, "assistant");

    assert!(result[1].content.contains("Summary of earlier conversation:"));
    assert!(result[1].content.contains("Résumé de la conversation précédente."));
}

#[test]
fn build_test_prompt_existing_conversation_with_summary() {
    let persona = create_test_persona();
    let messages = create_messages(8, false);
    let summary = test_summary("Ancien résumé.");

    let result = build_prompt(&persona, &messages, Some(&summary), "User");

    assert_eq!(result.len(), 10);
    assert_eq!(result[0].role, "system");
    assert_eq!(result[1].role, "system");
    assert_eq!(result[2].role, "user");
}

#[test]
fn build_prompt_appends_post_history_block_when_set() {
    let mut persona = create_test_persona();
    persona.post_history_instructions = "Stay focused on the scene, {{char}}.".to_owned();
    let messages = create_messages(4, false);

    let result = build_prompt(&persona, &messages, None, "User");

    let last = result.last().expect("prompt must not be empty");
    assert_eq!(last.role, "system");
    assert!(
        last.content.contains("Stay focused on the scene, TestPersona."),
        "post_history_instructions should be resolved and appended: {:?}",
        last.content
    );
}

#[test]
fn build_prompt_no_post_history_block_when_empty() {
    let persona = create_test_persona();
    let messages = create_messages(4, false);

    let result = build_prompt(&persona, &messages, None, "User");

    let last = result.last().unwrap();
    assert_ne!(
        last.role, "system",
        "no extra system block expected when post_history_instructions is empty"
    );
}

#[test]
fn build_prompt_leaves_no_unresolved_placeholders() {
    let mut persona = create_test_persona();
    persona.description = "{{char}} is a noble warrior.".to_owned();
    persona.character_goals = "Serve {{user}} well.".to_owned();
    persona.post_history_instructions = "Remember: {{char}} never retreats.".to_owned();

    let messages = create_messages(4, false);
    let result = build_prompt(&persona, &messages, None, "Bertrand");

    for block in &result {
        assert!(
            !block.content.contains("{{"),
            "unresolved placeholder in block role={}: {:?}",
            block.role,
            block.content
        );
    }
}

#[test]
fn build_prompt_uses_nsfw_template_when_instruction_template_is_nsfw() {
    let mut persona = create_test_persona();
    persona.instruction_template = "nsfw".to_owned();
    let messages = create_messages(2, false);

    let result = build_prompt(&persona, &messages, None, "User");

    let system = &result[0].content;
    assert!(
        system.contains("mature, intimate"),
        "NSFW template not found in system block: {system}"
    );
    assert!(
        !system.contains("character-driven roleplay"),
        "default template must not appear when nsfw is selected"
    );
}

#[test]
fn system_block_exact_text_for_minimal_persona() {
    let mut persona = create_test_persona();
    persona.name = "Aria".to_owned();
    persona.description = String::new();
    persona.personality = String::new();
    persona.scenario = "  A rainy {{user}} city.  ".to_owned();
    persona.message_example = String::new();
    persona.instruction_template = "custom".to_owned();
    persona.model_instructions = "   ".to_owned();
    persona.response_length_limit = 10;

    let block = build_system_block(&persona, "Bob");

    assert_eq!(
        block,
        "# Role\nYou are Aria.\n\n# Scenario\nA rainy Bob city.\n\n# Response Contract\nKeep the response under 10 characters (about 2 words)."
    );
}

#[test]
fn history_is_last_ten_of_eleven_and_single_user_message_is_dropped() {
    let persona = create_test_persona();
    let messages = create_messages(11, false);
    let result = build_prompt(&persona, &messages, None, "User");
    assert_eq!(result.len(), 11);
    assert_eq!(result[1].content, "Message 2");

    let lone_user = vec![create_test_message(Role::User, "hi")];
    assert!(!should_include_first_message(&lone_user));
    let result = build_prompt(&persona, &lone_user, None, "User");
    assert_eq!(result.len(), 1, "a lone user message is neither first message nor history");
}

#[test]
fn resolve_placeholders_negative_limit_rounds_toward_zero() {
    assert_eq!(resolve_placeholders("{{response_length_example}}", "X", "Y", -7), "about -1 words");
    assert_eq!(resolve_placeholders("{{response_length_limit}}", "X", "Y", -7), "-7");
}

#[test]
fn resolve_placeholders_keeps_text_without_braces() {
    let text = "No placeholders here, only plain text.";
    assert_eq!(resolve_placeholders(text, "Aria", "Bob", 1200), text);
}

#[test]
fn resolve_placeholders_leaves_no_placeholder_in_template_text() {
    let result = resolve_placeholders(
        "{{char}}{{user}}{{response_length_limit}}{{response_length_example}}{{char}}",
        "A",
        "B",
        4,
    );
    assert_eq!(result, "AB4about 1 wordsA");
    assert!(!result.contains('{'));
}

#[test]
fn messages_to_prompt_joins_upper_cased_roles() {
    let messages = vec![
        OllamaMessage::new(Role::System, "Be kind".to_owned()),
        OllamaMessage::new(Role::User, "Hi".to_owned()),
    ];
    assert_eq!(messages_to_prompt(&messages), "SYSTEM:\nBe kind\n\nUSER:\nHi");
    assert_eq!(messages_to_prompt(&[]), "");
}

#[test]
fn num_predict_is_quarter_rounded_up_plus_fifty() {
    assert_eq!(num_predict_for_char_limits(1200), 350);
    assert_eq!(num_predict_for_char_limits(1201), 351);
    assert_eq!(num_predict_for_char_limits(0), 50);
    assert_eq!(num_predict_for_char_limits(3), 51);
}

#[test]
fn role_from_string_accepts_known_roles_only() {
    assert_eq!(OllamaMessage::role_from_string("assistant"), Ok(Role::Assistant));
    assert_eq!(
        OllamaMessage::role_from_string("robot"),
        Err("Invalid role: robot".to_owned())
    );
}
