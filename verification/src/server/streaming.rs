//! Streaming a reply as server-sent events: the events' JSON payloads, and the decision
//! taken on each chunk of the Ollama stream.
use vstd::prelude::*;
use crate::ids::{hex_char, uuid_text, uuid_to_string};
use crate::llm::ollama::{OllamaError, StreamChunk};
use crate::text::{concat2, concat3, contains, str_contains};

verus! {

broadcast use vstd::string::group_string_axioms;

/// How JSON writes one char inside a string literal: `"` and `\` behind a backslash,
/// the control chars with a short escape where JSON has one, the other control chars as
/// `\u00` and two lower-case hex digits, and every other char as it is.
pub open spec fn json_escape(c: char) -> Seq<char> {
    if c == '"' {
        seq!['\\', '"']
    } else if c == '\\' {
        seq!['\\', '\\']
    } else if c == '\u{8}' {
        seq!['\\', 'b']
    } else if c == '\t' {
        seq!['\\', 't']
    } else if c == '\n' {
        seq!['\\', 'n']
    } else if c == '\u{c}' {
        seq!['\\', 'f']
    } else if c == '\r' {
        seq!['\\', 'r']
    } else if (c as int) < 0x20 {
        seq!['\\', 'u', '0', '0', hex_char(c as int / 16), hex_char(c as int % 16)]
    } else {
        seq![c]
    }
}

/// The escaped contents of a JSON string literal for `s`.
pub open spec fn json_escaped(s: Seq<char>) -> Seq<char>
    decreases s.len(),
{
    if s.len() == 0 {
        Seq::empty()
    } else {
        json_escaped(s.drop_last()) + json_escape(s.last())
    }
}

/// The JSON string literal for `s`: its escaped contents between double quotes.
pub open spec fn json_string(s: Seq<char>) -> Seq<char> {
    seq!['"'] + json_escaped(s) + seq!['"']
}

/// `serde_json::to_string` on a `&str`: the JSON string literal of the text, escaped as
/// serde_json's serializer escapes it (its `ESCAPE` table and `write_char_escape`).
/// Serializing a `str` into memory does not fail; the error arm is never taken.
#[verifier::external_body]
fn json_string_literal(s: &str) -> (r: String)
    ensures
        r@ == json_string(s@),
{
    match serde_json::to_string(s) {
        Ok(j) => j,
        Err(_) => String::new(),
    }
}

/// A server-sent event: its name and its data.
#[derive(Debug, Clone)]
pub struct SseFrame {
    pub event: String,
    pub data: String,
}

/// The data of a token event: `{"text":` and the token as a JSON string, then `}`.
pub open spec fn token_data(token: Seq<char>) -> Seq<char> {
    "{\"text\":"@ + json_string(token) + "}"@
}

/// The data of the event that ends a stored reply: the message id as JSON.
pub open spec fn done_data(message_id: u128) -> Seq<char> {
    "{\"message_id\":\""@ + uuid_text(message_id) + "\"}"@
}

/// The data of the event sent when the model's stream failed.
pub open spec fn stream_error_data() -> Seq<char> {
    "{\"message\":\"stream error\"}"@
}

/// The data of the event sent when the finished reply could not be stored.
pub open spec fn save_error_data() -> Seq<char> {
    "{\"message\":\"Failed to persist message\"}"@
}

/// The event that carries one token of the reply.
pub fn token_frame(token: &str) -> (f: SseFrame)
    ensures
        f.event@ == "token"@,
        f.data@ == token_data(token@),
{
    let escaped = json_string_literal(token);
    SseFrame { event: "token".to_owned(), data: concat3("{\"text\":", escaped.as_str(), "}") }
}

/// The event that ends the stream of a reply stored under `message_id`.
pub fn done_frame(message_id: u128) -> (f: SseFrame)
    ensures
        f.event@ == "done"@,
        f.data@ == done_data(message_id),
{
    let id = uuid_to_string(message_id);
    SseFrame { event: "done".to_owned(), data: concat3("{\"message_id\":\"", id.as_str(), "\"}") }
}

/// The event sent when the model's stream failed.
pub fn stream_error_frame() -> (f: SseFrame)
    ensures
        f.event@ == "error"@,
        f.data@ == stream_error_data(),
{
    SseFrame { event: "error".to_owned(), data: "{\"message\":\"stream error\"}".to_owned() }
}

/// The event sent after the finished reply was stored (`Some` of its id) or could not be
/// stored (`None`).
pub fn after_save(saved: Option<u128>) -> (f: SseFrame)
    ensures
        match saved {
            Some(id) => f.event@ == "done"@ && f.data@ == done_data(id),
            None => f.event@ == "error"@ && f.data@ == save_error_data(),
        },
{
    match saved {
        Some(id) => done_frame(id),
        None => SseFrame {
            event: "error".to_owned(),
            data: "{\"message\":\"Failed to persist message\"}".to_owned(),
        },
    }
}

/// Whether an `Accept` header asks for a stream of events: it names `event-stream`.
pub fn wants_event_stream(accept: Option<&str>) -> (r: bool)
    ensures
        r == (accept matches Some(a) && contains(a@, "event-stream"@)),
{
    match accept {
        Some(a) => str_contains(a, "event-stream"),
        None => false,
    }
}

/// What to do after a chunk of the model's stream.
#[derive(Debug)]
pub enum StreamStep {
    /// Send this event and wait for the next chunk.
    Send(SseFrame),
    /// The stream ended: store the reply, then send what `after_save` gives and stop.
    Save { content: String, eval_count: u32 },
    /// Send this event and stop.
    Stop(SseFrame),
}

/// The text that a stream of tokens gathers: the tokens one after another.
pub open spec fn gathered(tokens: Seq<Seq<char>>) -> Seq<char>
    decreases tokens.len(),
{
    if tokens.len() == 0 {
        Seq::empty()
    } else {
        gathered(tokens.drop_last()) + tokens.last()
    }
}

/// Gathering one more token appends it to what was gathered before.
pub proof fn lemma_gathered_push(tokens: Seq<Seq<char>>, t: Seq<char>)
    ensures
        gathered(tokens.push(t)) == gathered(tokens) + t,
{
    assert(tokens.push(t).drop_last() =~= tokens);
}

/// The reply gathered so far from the model's stream, with the tokens it was gathered
/// from.
pub struct ReplyStream {
    pub full_text: String,
    pub tokens: Ghost<Seq<Seq<char>>>,
}

impl ReplyStream {
    /// The reply is the tokens received so far, one after another.
    pub open spec fn wf(&self) -> bool {
        self.full_text@ == gathered(self.tokens@)
    }

    /// A stream that has gathered nothing yet.
    pub fn new() -> (s: ReplyStream)
        ensures
            s.wf(),
            s.tokens@ == Seq::<Seq<char>>::empty(),
            s.full_text@ == Seq::<char>::empty(),
    {
        ReplyStream { full_text: String::new(), tokens: Ghost(Seq::empty()) }
    }

    /// The decision on one item of the model's stream: a token is appended to the reply
    /// and sent on; the end of the stream asks to store the whole reply, which is every
    /// token received, in order; a failure ends the stream with an error event.
    pub fn step(&mut self, item: Result<StreamChunk, OllamaError>) -> (s: StreamStep)
        requires
            old(self).wf(),
        ensures
            final(self).wf(),
            match item {
                Ok(StreamChunk::Token(t)) => {
                    &&& final(self).tokens@ == old(self).tokens@.push(t@)
                    &&& final(self).full_text@ == old(self).full_text@ + t@
                    &&& s matches StreamStep::Send(f) && f.event@ == "token"@ && f.data@
                        == token_data(t@)
                },
                Ok(StreamChunk::Done { eval_count }) => {
                    &&& final(self).tokens@ == old(self).tokens@
                    &&& final(self).full_text@ == old(self).full_text@
                    &&& s matches StreamStep::Save { content, eval_count: n } && content@
                        == gathered(old(self).tokens@) && n == eval_count
                },
                Err(_) => {
                    &&& final(self).tokens@ == old(self).tokens@
                    &&& final(self).full_text@ == old(self).full_text@
                    &&& s matches StreamStep::Stop(f) && f.event@ == "error"@ && f.data@
                        == stream_error_data()
                },
            },
    {
        match item {
            Ok(StreamChunk::Token(t)) => {
                proof {
                    lemma_gathered_push(self.tokens@, t@);
                }
                self.full_text.append(t.as_str());
                self.tokens = Ghost(self.tokens@.push(t@));
                StreamStep::Send(token_frame(t.as_str()))
            },
            Ok(StreamChunk::Done { eval_count }) => {
                StreamStep::Save { content: self.full_text.clone(), eval_count }
            },
            Err(_) => StreamStep::Stop(stream_error_frame()),
        }
    }
}

} // verus!
