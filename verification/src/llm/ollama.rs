//! The computing side of the Ollama client: prompt text for `/api/generate`, chunks of a
//! `/api/chat` stream, and the response-length estimate.
use vstd::prelude::*;
use crate::llm::prompt::OllamaMessage;
use crate::text::{ascii_upper, concat2, join, join_strings};
use vstd::utf8::is_ascii_chars;

verus! {

broadcast use vstd::string::group_string_axioms;

/// A chunk of an Ollama chat stream: a token of the reply, or the end of the stream with
/// the number of tokens evaluated.
#[derive(Debug)]
pub enum StreamChunk {
    Token(String),
    Done { eval_count: u32 },
}

/// Errors of Ollama calls.
#[derive(Debug)]
pub enum OllamaError {
    /// Network failure: timeout, DNS, or connection refused; holds the client's message.
    Network(String),
    /// Ollama returned a non-2xx HTTP status.
    Model(String),
    /// The response body could not be parsed.
    Parse(String),
}

impl OllamaError {
    /// The error's text, as its `Display` writes it.
    pub fn message(&self) -> (r: String)
        ensures
            r@ == match self {
                OllamaError::Network(m) => "Network error: "@ + m@,
                OllamaError::Model(m) => "Model error: "@ + m@,
                OllamaError::Parse(m) => "Parse error: "@ + m@,
            },
    {
        match self {
            OllamaError::Network(m) => concat2("Network error: ", m.as_str()),
            OllamaError::Model(m) => concat2("Model error: ", m.as_str()),
            OllamaError::Parse(m) => concat2("Parse error: ", m.as_str()),
        }
    }
}

/// What `str::to_uppercase` returns for a string: its Unicode upper-case mapping.
pub uninterp spec fn uppercase(s: Seq<char>) -> Seq<char>;

/// `str::to_uppercase`. The result is named by `uppercase`; on a string of ASCII chars the
/// Unicode upper-case mapping maps `a`..`z` to `A`..`Z` and keeps every other char.
#[verifier::external_body]
fn to_uppercase(s: &str) -> (r: String)
    ensures
        r@ == uppercase(s@),
        is_ascii_chars(s@) ==> r@ == s@.map_values(|c: char| ascii_upper(c)),
{
    s.to_uppercase()
}

/// The upper-case form of a role text: for ASCII text, its letters upper-cased.
pub open spec fn upper_role(role: Seq<char>) -> Seq<char> {
    if is_ascii_chars(role) {
        role.map_values(|c: char| ascii_upper(c))
    } else {
        uppercase(role)
    }
}

/// One message of a plain-text prompt: the upper-cased role, a colon, a line break and the
/// content.
pub open spec fn prompt_entry(m: OllamaMessage) -> Seq<char> {
    upper_role(m.role@) + ":\n"@ + m.content@
}

/// The plain-text prompt for a list of messages: their entries separated by blank lines.
pub open spec fn prompt_text(messages: Seq<OllamaMessage>) -> Seq<char> {
    join(messages.map_values(|m: OllamaMessage| prompt_entry(m)), "\n\n"@)
}

/// Flattens chat messages into the single prompt text of `/api/generate`.
pub fn messages_to_prompt(messages: &[OllamaMessage]) -> (r: String)
    ensures
        r@ == prompt_text(messages@),
{
    let mut entries: Vec<String> = Vec::new();
    let n = messages.len();
    for i in 0..n
        invariant
            n == messages@.len(),
            entries@.map_values(|s: String| s@) == messages@.take(i as int).map_values(
                |m: OllamaMessage| prompt_entry(m),
            ),
    {
        let role = to_uppercase(messages[i].role.as_str());
        let mut entry = concat2(role.as_str(), ":\n");
        entry.append(messages[i].content.as_str());
        assert(entry@ == prompt_entry(messages@[i as int]));
        let ghost before = entries@;
        entries.push(entry);
        assert(entries@.map_values(|s: String| s@) =~= before.map_values(|s: String| s@).push(
            prompt_entry(messages@[i as int]),
        ));
        assert(messages@.take(i + 1) =~= messages@.take(i as int).push(messages@[i as int]));
        assert(entries@.map_values(|s: String| s@) =~= messages@.take(i + 1).map_values(
            |m: OllamaMessage| prompt_entry(m),
        ));
    }
    assert(messages@.take(n as int) =~= messages@);
    join_strings(&entries, "\n\n")
}

/// `ceil(limit / 4) + 50`: the number of tokens to let Ollama generate for a reply of
/// at most `limit` characters.
pub open spec fn num_predict(limit: u32) -> int {
    (limit as int + 3) / 4 + 50
}

/// Estimates `num_predict` from a character limit: `ceil(limit / 4) + 50`.
pub fn num_predict_for_char_limits(limit: u32) -> (n: u32)
    ensures
        n as int == num_predict(limit),
{
    limit / 4 + if limit % 4 == 0 { 0 } else { 1 } + 50
}

/// The chunk for one decoded line of a chat stream: the end of the stream when `done`
/// (with the evaluation count truncated to 32 bits, 0 when absent), else the message
/// content as a token.
pub fn chunk_from_line(done: bool, content: String, eval_count: Option<u64>) -> (c: StreamChunk)
    ensures
        done ==> (c matches StreamChunk::Done { eval_count: n } && n == match eval_count {
            Some(e) => e as u32,
            None => 0u32,
        }),
        !done ==> (c matches StreamChunk::Token(t) && t@ == content@),
{
    if done {
        let n: u64 = match eval_count {
            Some(e) => e,
            None => 0,
        };
        StreamChunk::Done { eval_count: n as u32 }
    } else {
        StreamChunk::Token(content)
    }
}

} // verus!
