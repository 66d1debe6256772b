//! Prompt assembly: placeholders, the structured system block, and the message list
//! sent to Ollama.
use vstd::prelude::*;
use crate::domain::persona::{Message, Persona, Role, Summary, role_text};
use crate::text::{
    blank, concat2, concat3, contains, i64_to_string, int_to_decimal, is_blank, join, join_strings,
    occurs_at, replace, replace_all, trim, trimmed,
};

verus! {

broadcast use vstd::string::group_string_axioms;

/// A chat message in the shape Ollama's chat API takes.
#[derive(Debug, Clone)]
pub struct OllamaMessage {
    pub role: String,
    pub content: String,
}

/// The `(role, content)` text of each message.
pub open spec fn message_views(v: Seq<OllamaMessage>) -> Seq<(Seq<char>, Seq<char>)> {
    v.map_values(|m: OllamaMessage| (m.role@, m.content@))
}

/// The text of each string.
pub open spec fn views(v: Seq<String>) -> Seq<Seq<char>> {
    v.map_values(|s: String| s@)
}

impl OllamaMessage {
    /// A message with the role's text form and the given content.
    pub fn new(role: Role, content: String) -> (m: OllamaMessage)
        ensures
            m.role@ == role_text(role),
            m.content@ == content@,
    {
        OllamaMessage { role: role.to_text(), content }
    }

    /// The role named by `role` (`user`, `assistant` or `system`); any other text gives
    /// the error `Invalid role: ` followed by the text.
    pub fn role_from_string(role: &str) -> (r: Result<Role, String>)
        ensures
            match r {
                Ok(v) => crate::domain::persona::role_from_text(role@) == Some(v),
                Err(e) => crate::domain::persona::role_from_text(role@) is None
                    && e@ == "Invalid role: "@ + role@,
            },
    {
        if crate::text::str_eq(role, "user") {
            Ok(Role::User)
        } else if crate::text::str_eq(role, "assistant") {
            Ok(Role::Assistant)
        } else if crate::text::str_eq(role, "system") {
            Ok(Role::System)
        } else {
            Err(concat2("Invalid role: ", role))
        }
    }
}

// ----------------------------------------------------------------------------
// Placeholders
// ----------------------------------------------------------------------------

/// `x / 4` rounded toward zero, as Rust's integer division computes it.
pub open spec fn quarter(x: int) -> int {
    if x >= 0 {
        x / 4
    } else {
        -((-x) / 4)
    }
}

/// The text that stands for `{{response_length_example}}`: `about N words`, N a quarter
/// of the limit.
pub open spec fn length_example(limit: i64) -> Seq<char> {
    "about "@ + int_to_decimal(quarter(limit as int)) + " words"@
}

/// `text` with `{{char}}`, `{{user}}`, `{{response_length_limit}}` and
/// `{{response_length_example}}` replaced, in that order.
pub open spec fn resolved(text: Seq<char>, char_name: Seq<char>, user_name: Seq<char>, limit: i64) -> Seq<char> {
    replace_all(
        replace_all(
            replace_all(replace_all(text, "{{char}}"@, char_name), "{{user}}"@, user_name),
            "{{response_length_limit}}"@,
            int_to_decimal(limit as int),
        ),
        "{{response_length_example}}"@,
        length_example(limit),
    )
}

/// `limit / 4`, rounded toward zero.
pub fn quarter_of(limit: i64) -> (q: i64)
    ensures
        q as int == quarter(limit as int),
{
    if limit >= 0 {
        limit / 4
    } else if limit == i64::MIN {
        -2305843009213693952i64
    } else {
        -((-limit) / 4)
    }
}

/// Replaces all known prompt placeholders with their resolved values.
pub fn resolve_placeholders(text: &str, char_name: &str, user_name: &str, limit: i64) -> (r: String)
    ensures
        r@ == resolved(text@, char_name@, user_name@, limit),
{
    proof {
        reveal_strlit("{{char}}");
        reveal_strlit("{{user}}");
        reveal_strlit("{{response_length_limit}}");
        reveal_strlit("{{response_length_example}}");
    }
    let limit_text = i64_to_string(limit);
    let words = i64_to_string(quarter_of(limit));
    let example = concat3("about ", words.as_str(), " words");
    let a = replace(text, "{{char}}", char_name);
    let b = replace(a.as_str(), "{{user}}", user_name);
    let c = replace(b.as_str(), "{{response_length_limit}}", limit_text.as_str());
    replace(c.as_str(), "{{response_length_example}}", example.as_str())
}

// ----------------------------------------------------------------------------
// Templates
// ----------------------------------------------------------------------------

/// The built-in default model-instructions template.
pub open spec fn default_template_text() -> Seq<char> {
    "Write as {{char}} in a character-driven roleplay scene.\nUse vivid physical actions in *asterisks* and spoken dialogue in \"quotes\".\nStay in {{char}}'s perspective and preserve {{char}}'s personality, goals, speech patterns, and boundaries.\nDrive the scene proactively through concrete actions, choices, tension, and sensory detail.\nKeep the response under {{response_length_limit}} characters."@
}

/// The built-in template for mature personas.
pub open spec fn nsfw_template_text() -> Seq<char> {
    "Write as {{char}} in a mature, intimate roleplay scene.\nUse vivid physical actions in *asterisks* and spoken dialogue in \"quotes\".\nStay in {{char}}'s perspective and preserve {{char}}'s personality, desires, goals, speech patterns, and boundaries.\nBuild tension through pacing, sensory detail, consent-aware reactions, and proactive character choices.\nKeep the response under {{response_length_limit}} characters."@
}

/// The built-in default template.
pub fn default_template() -> (r: &'static str)
    ensures
        r@ == default_template_text(),
{
    "Write as {{char}} in a character-driven roleplay scene.\nUse vivid physical actions in *asterisks* and spoken dialogue in \"quotes\".\nStay in {{char}}'s perspective and preserve {{char}}'s personality, goals, speech patterns, and boundaries.\nDrive the scene proactively through concrete actions, choices, tension, and sensory detail.\nKeep the response under {{response_length_limit}} characters."
}

/// The built-in template for mature personas.
pub fn nsfw_template() -> (r: &'static str)
    ensures
        r@ == nsfw_template_text(),
{
    "Write as {{char}} in a mature, intimate roleplay scene.\nUse vivid physical actions in *asterisks* and spoken dialogue in \"quotes\".\nStay in {{char}}'s perspective and preserve {{char}}'s personality, desires, goals, speech patterns, and boundaries.\nBuild tension through pacing, sensory detail, consent-aware reactions, and proactive character choices.\nKeep the response under {{response_length_limit}} characters."
}

/// The raw template a persona selects: `default` and `nsfw` name the built-in templates;
/// `custom` and every other name select the persona's own model instructions.
pub open spec fn template_text(p: Persona) -> Seq<char> {
    if p.instruction_template@ == "default"@ {
        default_template_text()
    } else if p.instruction_template@ == "nsfw"@ {
        nsfw_template_text()
    } else {
        p.model_instructions@
    }
}

/// Returns the raw (unresolved) template text for the persona.
///
/// Unknown names map to `model_instructions` so that stored custom text is never
/// silently dropped.
pub fn select_template(persona: &Persona) -> (r: &str)
    ensures
        r@ == template_text(*persona),
{
    if crate::text::str_eq(persona.instruction_template.as_str(), "default") {
        default_template()
    } else if crate::text::str_eq(persona.instruction_template.as_str(), "nsfw") {
        nsfw_template()
    } else {
        persona.model_instructions.as_str()
    }
}


// ----------------------------------------------------------------------------
// System block
// ----------------------------------------------------------------------------

/// The resolved, trimmed text of an optional field: `None` when the field is blank.
pub open spec fn optional_resolved(text: Seq<char>, char_name: Seq<char>, user_name: Seq<char>, limit: i64) -> Option<Seq<char>> {
    if is_blank(text) {
        None
    } else {
        Some(resolved(trim(text), char_name, user_name, limit))
    }
}

/// A one-element list holding `label` followed by the value, or no element at all.
pub open spec fn labeled(label: Seq<char>, value: Option<Seq<char>>) -> Seq<Seq<char>> {
    match value {
        Some(v) => seq![label + v],
        None => Seq::empty(),
    }
}

/// An optional persona field, resolved for the persona and the user.
pub open spec fn field_of(p: Persona, user_name: Seq<char>, text: Seq<char>) -> Option<Seq<char>> {
    optional_resolved(text, p.name@, user_name, p.response_length_limit)
}

/// The non-empty sub-sections of the `# Character` section.
pub open spec fn character_parts(p: Persona, user_name: Seq<char>) -> Seq<Seq<char>> {
    labeled("Appearance:\n"@, field_of(p, user_name, p.appearance@))
        + labeled("Description:\n"@, field_of(p, user_name, p.description@))
        + labeled("Personality:\n"@, field_of(p, user_name, p.personality@))
        + labeled("Speech Style:\n"@, field_of(p, user_name, p.speech_style@))
}

/// The closing section, which always states the length limit.
pub open spec fn response_contract(limit: i64) -> Seq<char> {
    "# Response Contract\nKeep the response under "@ + int_to_decimal(limit as int)
        + " characters (about "@ + int_to_decimal(quarter(limit as int)) + " words)."@
}

/// The label of the style-examples section.
pub open spec fn style_examples_label() -> Seq<char> {
    "# Style Examples\nUse these as style references, not current conversation events.\n"@
}

/// The sections of the system block, in order; the optional ones only when non-empty.
pub open spec fn system_sections(p: Persona, user_name: Seq<char>) -> Seq<Seq<char>> {
    seq!["# Role\nYou are "@ + p.name@ + "."@]
        + (if is_blank(template_text(p)) {
        Seq::empty()
    } else {
        seq!["# Model Instructions\n"@ + resolved(template_text(p), p.name@, user_name, p.response_length_limit)]
    }) + (if character_parts(p, user_name).len() > 0 {
        seq!["# Character\n"@ + join(character_parts(p, user_name), "\n\n"@)]
    } else {
        Seq::empty()
    }) + labeled("# Scenario\n"@, field_of(p, user_name, p.scenario@))
        + labeled("# Character Goals\n"@, field_of(p, user_name, p.character_goals@))
        + labeled(style_examples_label(), field_of(p, user_name, p.message_example@))
        + seq![response_contract(p.response_length_limit)]
}

/// The system block: its sections separated by blank lines.
pub open spec fn system_block_text(p: Persona, user_name: Seq<char>) -> Seq<char> {
    join(system_sections(p, user_name), "\n\n"@)
}

/// Appends `label` + the resolved trimmed `text` to `parts`, unless `text` is blank.
fn push_labeled(parts: &mut Vec<String>, label: &str, text: &str, char_name: &str, user_name: &str, limit: i64)
    ensures
        views(final(parts)@) == views(old(parts)@) + labeled(label@, optional_resolved(text@, char_name@, user_name@, limit)),
{
    if blank(text) {
        assert(views(parts@) =~= views(old(parts)@) + Seq::<Seq<char>>::empty());
    } else {
        let t = trimmed(text);
        let v = resolve_placeholders(t.as_str(), char_name, user_name, limit);
        let item = concat2(label, v.as_str());
        parts.push(item);
        assert(views(parts@) =~= views(old(parts)@) + seq![label@ + v@]);
    }
}

/// Builds the main structured system block from persona fields.
pub fn build_system_block(persona: &Persona, user_name: &str) -> (r: String)
    ensures
        r@ == system_block_text(*persona, user_name@),
{
    let char_name = persona.name.as_str();
    let limit = persona.response_length_limit;
    let mut sections: Vec<String> = Vec::new();
    let role = concat3("# Role\nYou are ", char_name, ".");
    sections.push(role);
    let ghost s1 = views(sections@);
    assert(s1 =~= seq!["# Role\nYou are "@ + persona.name@ + "."@]);

    let template = select_template(persona);
    if !blank(template) {
        let resolved_template = resolve_placeholders(template, char_name, user_name, limit);
        sections.push(concat2("# Model Instructions\n", resolved_template.as_str()));
    }
    let ghost s2 = views(sections@);
    assert(s2 =~= s1 + (if is_blank(template_text(*persona)) {
        Seq::empty()
    } else {
        seq!["# Model Instructions\n"@ + resolved(template_text(*persona), persona.name@, user_name@, limit)]
    }));

    let mut parts: Vec<String> = Vec::new();
    assert(views(parts@) =~= Seq::<Seq<char>>::empty());
    push_labeled(&mut parts, "Appearance:\n", persona.appearance.as_str(), char_name, user_name, limit);
    push_labeled(&mut parts, "Description:\n", persona.description.as_str(), char_name, user_name, limit);
    push_labeled(&mut parts, "Personality:\n", persona.personality.as_str(), char_name, user_name, limit);
    push_labeled(&mut parts, "Speech Style:\n", persona.speech_style.as_str(), char_name, user_name, limit);
    assert(views(parts@) =~= character_parts(*persona, user_name@));
    if parts.len() > 0 {
        let joined = join_strings(&parts, "\n\n");
        sections.push(concat2("# Character\n", joined.as_str()));
    }
    let ghost s3 = views(sections@);
    assert(s3 =~= s2 + (if character_parts(*persona, user_name@).len() > 0 {
        seq!["# Character\n"@ + join(character_parts(*persona, user_name@), "\n\n"@)]
    } else {
        Seq::empty()
    }));

    push_labeled(&mut sections, "# Scenario\n", persona.scenario.as_str(), char_name, user_name, limit);
    push_labeled(&mut sections, "# Character Goals\n", persona.character_goals.as_str(), char_name, user_name, limit);
    push_labeled(
        &mut sections,
        "# Style Examples\nUse these as style references, not current conversation events.\n",
        persona.message_example.as_str(),
        char_name,
        user_name,
        limit,
    );

    let limit_text = i64_to_string(limit);
    let words = i64_to_string(quarter_of(limit));
    let mut contract = concat3("# Response Contract\nKeep the response under ", limit_text.as_str(), " characters (about ");
    contract.append(words.as_str());
    contract.append(" words).");
    sections.push(contract);
    assert(views(sections@) =~= system_sections(*persona, user_name@));
    join_strings(&sections, "\n\n")
}


// ----------------------------------------------------------------------------
// Prompt
// ----------------------------------------------------------------------------

/// Which fields a prompt build draws on; logged with every prompt.
#[derive(Debug, Clone, PartialEq, Eq)]
pub struct PromptTraceFields {
    pub message_count: usize,
    pub has_summary: bool,
    pub has_model_instructions: bool,
    pub has_appearance: bool,
    pub has_speech_style: bool,
    pub has_character_goals: bool,
    pub has_post_history_instructions: bool,
    pub instruction_template: String,
    pub response_length_limit: i64,
}

impl PromptTraceFields {
    /// The trace of a prompt built from these inputs: each `has_` flag tells whether the
    /// field holds more than whitespace.
    pub fn from_inputs(persona: &Persona, messages: &[Message], has_summary: bool) -> (t: PromptTraceFields)
        ensures
            t.message_count == messages@.len(),
            t.has_summary == has_summary,
            t.has_model_instructions == !is_blank(persona.model_instructions@),
            t.has_appearance == !is_blank(persona.appearance@),
            t.has_speech_style == !is_blank(persona.speech_style@),
            t.has_character_goals == !is_blank(persona.character_goals@),
            t.has_post_history_instructions == !is_blank(persona.post_history_instructions@),
            t.instruction_template@ == persona.instruction_template@,
            t.response_length_limit == persona.response_length_limit,
    {
        PromptTraceFields {
            message_count: messages.len(),
            has_summary,
            has_model_instructions: !blank(persona.model_instructions.as_str()),
            has_appearance: !blank(persona.appearance.as_str()),
            has_speech_style: !blank(persona.speech_style.as_str()),
            has_character_goals: !blank(persona.character_goals.as_str()),
            has_post_history_instructions: !blank(persona.post_history_instructions.as_str()),
            instruction_template: persona.instruction_template.clone(),
            response_length_limit: persona.response_length_limit,
        }
    }
}

/// A conversation that holds only the persona's first (assistant) message.
pub open spec fn first_message_included(msgs: Seq<Message>) -> bool {
    msgs.len() == 1 && msgs[0].role == Role::Assistant
}

/// The history sent with the prompt: the last ten messages (all of them when fewer),
/// and none when there is at most one message.
pub open spec fn history_window(msgs: Seq<Message>) -> Seq<Message> {
    if msgs.len() > 1 {
        msgs.skip(if msgs.len() > 10 { msgs.len() - 10 } else { 0 })
    } else {
        Seq::empty()
    }
}

/// A stored message as a prompt block.
pub open spec fn message_block(m: Message) -> (Seq<char>, Seq<char>) {
    (role_text(m.role), m.content@)
}

/// The content of the summary block for a summary text.
pub open spec fn summary_block_text(content: Seq<char>) -> Seq<char> {
    "Summary of earlier conversation:\n\n"@ + content
}

/// The summary's content, if there is a summary.
pub open spec fn summary_content(summary: Option<&Summary>) -> Option<Seq<char>> {
    match summary {
        Some(s) => Some(s.content@),
        None => None,
    }
}

/// The blocks of a prompt, in order: the system block; the summary, if any; the first
/// message of a new conversation; the history window; the post-history instructions,
/// when not blank.
pub open spec fn prompt_blocks(p: Persona, msgs: Seq<Message>, summary: Option<Seq<char>>, user_name: Seq<char>) -> Seq<(Seq<char>, Seq<char>)> {
    seq![("system"@, system_block_text(p, user_name))]
        + (match summary {
        Some(c) => seq![("system"@, summary_block_text(c))],
        None => Seq::empty(),
    }) + (if first_message_included(msgs) {
        seq![("assistant"@, msgs[0].content@)]
    } else {
        Seq::empty()
    }) + history_window(msgs).map_values(|m: Message| message_block(m))
        + (if is_blank(p.post_history_instructions@) {
        Seq::empty()
    } else {
        seq![("system"@, resolved(p.post_history_instructions@, p.name@, user_name, p.response_length_limit))]
    })
}

/// Whether the messages are only the persona's first message of a new conversation.
pub fn should_include_first_message(messages: &[Message]) -> (r: bool)
    ensures
        r == first_message_included(messages@),
{
    messages.len() == 1 && messages[0].role == Role::Assistant
}

/// Builds the list of messages sent to Ollama for a persona, its conversation history,
/// an optional summary, and the user's display name.
pub fn build_prompt(persona: &Persona, messages: &[Message], summary: Option<&Summary>, user_name: &str) -> (r: Vec<OllamaMessage>)
    ensures
        message_views(r@) == prompt_blocks(*persona, messages@, summary_content(summary), user_name@),
{
    let ghost msgs = messages@;
    let mut blocks: Vec<OllamaMessage> = Vec::new();
    blocks.push(OllamaMessage { role: "system".to_owned(), content: build_system_block(persona, user_name) });
    let ghost b1 = message_views(blocks@);
    assert(b1 =~= seq![("system"@, system_block_text(*persona, user_name@))]);

    match summary {
        Some(sm) => {
            let content = concat2("Summary of earlier conversation:\n\n", sm.content.as_str());
            blocks.push(OllamaMessage { role: "system".to_owned(), content });
        },
        None => {},
    }
    let ghost b2 = message_views(blocks@);
    assert(b2 =~= b1 + match summary_content(summary) {
        Some(c) => seq![("system"@, summary_block_text(c))],
        None => Seq::<(Seq<char>, Seq<char>)>::empty(),
    });

    let include_first = should_include_first_message(messages);
    if include_first {
        blocks.push(OllamaMessage { role: "assistant".to_owned(), content: messages[0].content.clone() });
    }
    let ghost b3 = message_views(blocks@);
    assert(b3 =~= b2 + if first_message_included(msgs) {
        seq![("assistant"@, msgs[0].content@)]
    } else {
        Seq::<(Seq<char>, Seq<char>)>::empty()
    });

    let n = messages.len();
    if n > 1 {
        let start_index: usize = if include_first { 1 } else { 0 };
        let skip_count: usize = if n > 10 + start_index { n - (10 + start_index) } else { 0 };
        let first = start_index + skip_count;
        let ghost window = history_window(msgs);
        assert(first == (if n > 10 { n - 10 } else { 0 }));
        let mut i = first;
        while i < n
            invariant
                first <= i <= n,
                n == messages@.len(),
                msgs == messages@,
                n > 1,
                window == history_window(msgs),
                window == msgs.skip(first as int),
                message_views(blocks@) == b3 + window.take(i - first).map_values(|m: Message| message_block(m)),
            decreases n - i,
        {
            let m = &messages[i];
            let ghost before = blocks@;
            let block = OllamaMessage { role: m.role.to_text(), content: m.content.clone() };
            assert((block.role@, block.content@) == message_block(msgs[i as int]));
            blocks.push(block);
            assert(window[i - first] == msgs[i as int]);
            assert(window.take(i + 1 - first) =~= window.take(i - first).push(msgs[i as int]));
            assert(message_views(blocks@) =~= message_views(before).push(message_block(msgs[i as int])));
            assert(message_views(blocks@) =~= b3 + window.take(i + 1 - first).map_values(
                |m: Message| message_block(m),
            ));
            i += 1;
        }
        assert(window.take(n - first) =~= window);
    } else {
        assert(history_window(msgs).map_values(|m: Message| message_block(m)) =~= Seq::<(Seq<char>, Seq<char>)>::empty());
        assert(message_views(blocks@) =~= b3 + history_window(msgs).map_values(|m: Message| message_block(m)));
    }
    let ghost b4 = message_views(blocks@);

    if !blank(persona.post_history_instructions.as_str()) {
        let content = resolve_placeholders(
            persona.post_history_instructions.as_str(),
            persona.name.as_str(),
            user_name,
            persona.response_length_limit,
        );
        blocks.push(OllamaMessage { role: "system".to_owned(), content });
    }
    assert(message_views(blocks@) =~= prompt_blocks(*persona, msgs, summary_content(summary), user_name@));
    blocks
}

/// The history a prompt carries is a suffix of the conversation: its last ten messages,
/// or all of them when there are fewer, and none for a conversation of at most one.
pub proof fn lemma_history_window_is_recent_suffix(msgs: Seq<Message>)
    ensures
        history_window(msgs).is_suffix_of(msgs),
        history_window(msgs).len() == if msgs.len() <= 1 {
            0
        } else if msgs.len() > 10 {
            10
        } else {
            msgs.len() as int
        },
{
    let w = history_window(msgs);
    if msgs.len() > 1 {
        assert(w =~= msgs.subrange(msgs.len() - w.len(), msgs.len() as int));
    } else {
        assert(w =~= msgs.subrange(msgs.len() as int, msgs.len() as int));
    }
}

/// Every prompt opens with the system block and holds at most fourteen messages; when
/// the post-history instructions are set, their resolved text closes it.
pub proof fn lemma_prompt_frame(p: Persona, msgs: Seq<Message>, summary: Option<Seq<char>>, user_name: Seq<char>)
    ensures
        prompt_blocks(p, msgs, summary, user_name)[0] == ("system"@, system_block_text(p, user_name)),
        prompt_blocks(p, msgs, summary, user_name).len() <= 14,
        !is_blank(p.post_history_instructions@) ==> prompt_blocks(p, msgs, summary, user_name).last()
            == ("system"@, resolved(p.post_history_instructions@, p.name@, user_name, p.response_length_limit)),
{
    lemma_history_window_is_recent_suffix(msgs);
}

/// The template a persona selects, and so its system block, does not depend on its
/// content rating: changing the rating never swaps custom instructions for a built-in
/// template.
pub proof fn lemma_template_ignores_rating(p: Persona, rating: crate::domain::content_rating::ContentRating, user_name: Seq<char>)
    ensures
        template_text(Persona { content_rating: rating, ..p }) == template_text(p),
        system_block_text(Persona { content_rating: rating, ..p }, user_name) == system_block_text(p, user_name),
{
    let q = Persona { content_rating: rating, ..p };
    assert(system_sections(q, user_name) =~= system_sections(p, user_name));
}

/// The conversation reaches the prompt whole and in order, up to its last ten messages:
/// after the system block and the summary block (when there is a summary), a prompt for
/// a conversation of more than one message holds its last `min(n, 10)` messages, each
/// as its role text and content, whatever the role of the first; then the post-history
/// block when it is set, and nothing else. A conversation of one message gives that
/// message when the assistant wrote it (the greeting), and no history otherwise.
pub proof fn lemma_prompt_carries_recent_history(
    p: Persona,
    msgs: Seq<Message>,
    summary: Option<Seq<char>>,
    user_name: Seq<char>,
)
    ensures
        ({
            let blocks = prompt_blocks(p, msgs, summary, user_name);
            let off: int = if summary is Some { 2 } else { 1 };
            let n = msgs.len() as int;
            let h: int = if n > 10 { 10 } else { n };
            let post: int = if is_blank(p.post_history_instructions@) { 0 } else { 1 };
            &&& n > 1 ==> blocks.len() == off + h + post
            &&& n > 1 ==> forall|j: int|
                n - h <= j < n ==> blocks[off + j - (n - h)] == (
                    role_text(#[trigger] msgs[j].role),
                    msgs[j].content@,
                )
            &&& n == 1 && msgs[0].role == Role::Assistant ==> blocks.len() == off + 1 + post
                && blocks[off] == ("assistant"@, msgs[0].content@)
            &&& (n == 0 || (n == 1 && msgs[0].role != Role::Assistant)) ==> blocks.len() == off
                + post
        }),
{
    let blocks = prompt_blocks(p, msgs, summary, user_name);
    let n = msgs.len() as int;
    let head: Seq<(Seq<char>, Seq<char>)> = seq![("system"@, system_block_text(p, user_name))]
        + (match summary {
        Some(c) => seq![("system"@, summary_block_text(c))],
        None => Seq::empty(),
    });
    let first: Seq<(Seq<char>, Seq<char>)> = if first_message_included(msgs) {
        seq![("assistant"@, msgs[0].content@)]
    } else {
        Seq::empty()
    };
    let hist = history_window(msgs).map_values(|m: Message| message_block(m));
    let tail: Seq<(Seq<char>, Seq<char>)> = if is_blank(p.post_history_instructions@) {
        Seq::empty()
    } else {
        seq![("system"@, resolved(p.post_history_instructions@, p.name@, user_name, p.response_length_limit))]
    };
    assert(blocks == head + first + hist + tail);
    if n > 1 {
        let h: int = if n > 10 { 10 } else { n };
        let off = head.len();
        assert(first.len() == 0);
        assert(history_window(msgs) == msgs.skip(n - h));
        assert forall|j: int| n - h <= j < n implies blocks[off + j - (n - h)] == (
            role_text(#[trigger] msgs[j].role),
            msgs[j].content@,
        ) by {
            let k = j - (n - h);
            assert((head + first + hist + tail)[off + k] == hist[k]);
            assert(history_window(msgs)[k] == msgs[j]);
        }
    }
}

proof fn lemma_contains_trans(x: Seq<char>, y: Seq<char>, z: Seq<char>)
    requires
        contains(x, y),
        contains(y, z),
    ensures
        contains(x, z),
{
    let i = choose|i: int| occurs_at(x, y, i);
    let j = choose|j: int| occurs_at(y, z, j);
    assert(x.subrange(i + j, i + j + z.len()) =~= y.subrange(j, j + z.len()));
    assert(occurs_at(x, z, i + j));
}

proof fn lemma_contains_in_concat(a: Seq<char>, x: Seq<char>, b: Seq<char>)
    ensures
        contains(a + x + b, x),
{
    assert((a + x + b).subrange(a.len() as int, (a.len() + x.len()) as int) =~= x);
    assert(occurs_at(a + x + b, x, a.len() as int));
}

proof fn lemma_join_contains(parts: Seq<Seq<char>>, sep: Seq<char>, i: int)
    requires
        0 <= i < parts.len(),
    ensures
        contains(join(parts, sep), parts[i]),
    decreases parts.len(),
{
    if parts.len() == 1 {
        lemma_contains_in_concat(Seq::empty(), parts[0], Seq::empty());
        assert(Seq::<char>::empty() + parts[0] + Seq::<char>::empty() =~= parts[0]);
    } else {
        let init = parts.drop_last();
        if i == parts.len() - 1 {
            lemma_contains_in_concat(join(init, sep) + sep, parts[i], Seq::empty());
            assert(join(init, sep) + sep + parts[i] + Seq::<char>::empty() =~= join(parts, sep));
        } else {
            lemma_join_contains(init, sep, i);
            assert(init[i] == parts[i]);
            lemma_contains_in_concat(Seq::empty(), join(init, sep), sep + parts.last());
            assert(Seq::<char>::empty() + join(init, sep) + (sep + parts.last()) =~= join(parts, sep));
            lemma_contains_trans(join(parts, sep), join(init, sep), parts[i]);
        }
    }
}

/// A section of the system block, and so any text it contains, is in the block.
proof fn lemma_section_in_block(p: Persona, user_name: Seq<char>, k: int, x: Seq<char>)
    requires
        0 <= k < system_sections(p, user_name).len(),
        contains(system_sections(p, user_name)[k], x),
    ensures
        contains(system_block_text(p, user_name), x),
{
    lemma_join_contains(system_sections(p, user_name), "\n\n"@, k);
    lemma_contains_trans(system_block_text(p, user_name), system_sections(p, user_name)[k], x);
}

/// Every part of the system block that a persona's texts fill is in the block: the role
/// line; the selected template, resolved, when it is not blank; and each field that is
/// not blank, trimmed and resolved, behind its label (appearance, description,
/// personality and speech style inside the character section; scenario, goals and
/// style examples in sections of their own).
pub proof fn lemma_system_block_shows_fields(p: Persona, user_name: Seq<char>)
    ensures
        ({
            let block = system_block_text(p, user_name);
            let name = p.name@;
            let limit = p.response_length_limit;
            &&& contains(block, "# Role\nYou are "@ + name + "."@)
            &&& !is_blank(template_text(p)) ==> contains(
                block,
                "# Model Instructions\n"@ + resolved(template_text(p), name, user_name, limit),
            )
            &&& !is_blank(p.appearance@) ==> contains(
                block,
                "Appearance:\n"@ + resolved(trim(p.appearance@), name, user_name, limit),
            )
            &&& !is_blank(p.description@) ==> contains(
                block,
                "Description:\n"@ + resolved(trim(p.description@), name, user_name, limit),
            )
            &&& !is_blank(p.personality@) ==> contains(
                block,
                "Personality:\n"@ + resolved(trim(p.personality@), name, user_name, limit),
            )
            &&& !is_blank(p.speech_style@) ==> contains(
                block,
                "Speech Style:\n"@ + resolved(trim(p.speech_style@), name, user_name, limit),
            )
            &&& !is_blank(p.scenario@) ==> contains(
                block,
                "# Scenario\n"@ + resolved(trim(p.scenario@), name, user_name, limit),
            )
            &&& !is_blank(p.character_goals@) ==> contains(
                block,
                "# Character Goals\n"@ + resolved(trim(p.character_goals@), name, user_name, limit),
            )
            &&& !is_blank(p.message_example@) ==> contains(
                block,
                "# Style Examples\nUse these as style references, not current conversation events.\n"@
                    + resolved(trim(p.message_example@), name, user_name, limit),
            )
        }),
{
    let name = p.name@;
    let limit = p.response_length_limit;
    let secs = system_sections(p, user_name);
    let s1: Seq<Seq<char>> = seq!["# Role\nYou are "@ + name + "."@];
    let s2: Seq<Seq<char>> = if is_blank(template_text(p)) {
        Seq::empty()
    } else {
        seq!["# Model Instructions\n"@ + resolved(template_text(p), name, user_name, limit)]
    };
    let parts = character_parts(p, user_name);
    let s3: Seq<Seq<char>> = if parts.len() > 0 {
        seq!["# Character\n"@ + join(parts, "\n\n"@)]
    } else {
        Seq::empty()
    };
    let sc = labeled("# Scenario\n"@, field_of(p, user_name, p.scenario@));
    let cg = labeled("# Character Goals\n"@, field_of(p, user_name, p.character_goals@));
    let ex = labeled(style_examples_label(), field_of(p, user_name, p.message_example@));
    let s7: Seq<Seq<char>> = seq![response_contract(limit)];
    assert(secs == s1 + s2 + s3 + sc + cg + ex + s7);

    // the role line
    lemma_contains_in_concat(Seq::empty(), secs[0], Seq::empty());
    assert(Seq::<char>::empty() + secs[0] + Seq::<char>::empty() =~= secs[0]);
    lemma_section_in_block(p, user_name, 0, s1[0]);

    // the template
    if !is_blank(template_text(p)) {
        let k = s1.len() as int;
        assert(secs[k] == s2[0]);
        lemma_contains_in_concat(Seq::empty(), secs[k], Seq::empty());
        assert(Seq::<char>::empty() + secs[k] + Seq::<char>::empty() =~= secs[k]);
        lemma_section_in_block(p, user_name, k, s2[0]);
    }

    // the character section
    let a = labeled("Appearance:\n"@, field_of(p, user_name, p.appearance@));
    let d = labeled("Description:\n"@, field_of(p, user_name, p.description@));
    let pe = labeled("Personality:\n"@, field_of(p, user_name, p.personality@));
    let sp = labeled("Speech Style:\n"@, field_of(p, user_name, p.speech_style@));
    assert(parts == a + d + pe + sp);
    let ck = (s1.len() + s2.len()) as int;
    assert forall|i: int| 0 <= i < parts.len() implies contains(
        system_block_text(p, user_name),
        #[trigger] parts[i],
    ) by {
        assert(secs[ck] == s3[0]);
        lemma_join_contains(parts, "\n\n"@, i);
        lemma_contains_in_concat("# Character\n"@, join(parts, "\n\n"@), Seq::empty());
        assert("# Character\n"@ + join(parts, "\n\n"@) + Seq::<char>::empty() =~= secs[ck]);
        lemma_section_in_block(p, user_name, ck, join(parts, "\n\n"@));
        lemma_contains_trans(system_block_text(p, user_name), join(parts, "\n\n"@), parts[i]);
    }
    if !is_blank(p.appearance@) {
        assert(parts[0] == a[0]);
    }
    if !is_blank(p.description@) {
        assert(parts[a.len() as int] == d[0]);
    }
    if !is_blank(p.personality@) {
        assert(parts[(a.len() + d.len()) as int] == pe[0]);
    }
    if !is_blank(p.speech_style@) {
        assert(parts[(a.len() + d.len() + pe.len()) as int] == sp[0]);
    }

    // scenario, goals and style examples
    let base = (s1.len() + s2.len() + s3.len()) as int;
    if !is_blank(p.scenario@) {
        assert(secs[base] == sc[0]);
        lemma_contains_in_concat(Seq::empty(), secs[base], Seq::empty());
        assert(Seq::<char>::empty() + secs[base] + Seq::<char>::empty() =~= secs[base]);
        lemma_section_in_block(p, user_name, base, sc[0]);
    }
    if !is_blank(p.character_goals@) {
        let k = base + sc.len();
        assert(secs[k] == cg[0]);
        lemma_contains_in_concat(Seq::empty(), secs[k], Seq::empty());
        assert(Seq::<char>::empty() + secs[k] + Seq::<char>::empty() =~= secs[k]);
        lemma_section_in_block(p, user_name, k, cg[0]);
    }
    if !is_blank(p.message_example@) {
        let k = base + sc.len() + cg.len();
        assert(secs[k] == ex[0]);
        lemma_contains_in_concat(Seq::empty(), secs[k], Seq::empty());
        assert(Seq::<char>::empty() + secs[k] + Seq::<char>::empty() =~= secs[k]);
        lemma_section_in_block(p, user_name, k, ex[0]);
    }
}

} // verus!
