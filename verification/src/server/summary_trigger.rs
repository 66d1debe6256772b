//! When a conversation gets a new summary, and what the model is asked to summarize.
//!
//! After each stored reply the server looks up the conversation's latest summary, reads
//! the messages that no summary covers yet, and, once there are enough of them, asks the
//! model to summarize them and stores the answer.
use vstd::prelude::*;
use crate::domain::persona::{Message, Summary, role_upper_text};

verus! {

broadcast use vstd::string::group_string_axioms;

/// How many uncovered messages it takes to write a new summary.
pub const SUMMARY_THRESHOLD: usize = 20;

/// Which messages a summary would cover next.
#[derive(Debug, Clone, Copy, PartialEq, Eq, Structural)]
pub enum UncoveredQuery {
    /// Every message of the conversation: it has no summary yet.
    All,
    /// The messages after the one with this id, the last that the latest summary covers.
    After(u128),
}

/// The messages no summary covers: all of them without a summary, else those after the
/// end of the latest summary's range.
pub fn uncovered_query(latest: Option<&Summary>) -> (q: UncoveredQuery)
    ensures
        match latest {
            None => q == UncoveredQuery::All,
            Some(s) => q == UncoveredQuery::After(s.message_range_end),
        },
{
    match latest {
        None => UncoveredQuery::All,
        Some(s) => UncoveredQuery::After(s.message_range_end),
    }
}

/// What a new summary is asked for: the prompt, and the first and last messages it covers.
#[derive(Debug, Clone)]
pub struct SummaryPlan {
    pub prompt: String,
    pub range_start: u128,
    pub range_end: u128,
}

/// The opening of every summary prompt.
pub open spec fn summary_instructions() -> Seq<char> {
    "You are summarizing a roleplay conversation.\nRespond in 3-5 sentences maximum. Focus on: character names, key events, current emotional state, unresolved tensions."@
}

/// One message as the summary prompt lists it: the upper-case role, `: `, the content
/// and a line break.
pub open spec fn summary_line(m: Message) -> Seq<char> {
    role_upper_text(m.role) + ": "@ + m.content@ + "\n"@
}

/// The lines of the messages to summarize, one after another.
pub open spec fn summary_lines(msgs: Seq<Message>) -> Seq<char>
    decreases msgs.len(),
{
    if msgs.len() == 0 {
        Seq::empty()
    } else {
        summary_lines(msgs.drop_last()) + summary_line(msgs.last())
    }
}

/// The summary prompt: the instructions, the previous summary where there is one, and
/// the messages to summarize.
pub open spec fn summary_prompt(previous: Option<Seq<char>>, msgs: Seq<Message>) -> Seq<char> {
    summary_instructions() + match previous {
        Some(p) => "\n\nPrevious summary:\n"@ + p,
        None => Seq::empty(),
    } + "\n\nMessages to summarize:\n"@ + summary_lines(msgs)
}

/// The plan for a new summary of the uncovered messages: none while they are fewer than
/// the threshold; else the prompt over them (after the previous summary, where there is
/// one) and the range from the first to the last of them.
pub fn plan_summary(previous: Option<&Summary>, uncovered: &Vec<Message>) -> (r: Option<SummaryPlan>)
    ensures
        uncovered.len() < SUMMARY_THRESHOLD <==> r is None,
        r matches Some(plan) ==> {
            &&& plan.prompt@ == summary_prompt(
                match previous {
                    Some(s) => Some(s.content@),
                    None => None,
                },
                uncovered@,
            )
            &&& plan.range_start == uncovered@[0].id
            &&& plan.range_end == uncovered@.last().id
        },
{
    if uncovered.len() < SUMMARY_THRESHOLD {
        return None;
    }
    proof {
        reveal_strlit("\n\nPrevious summary:\n");
    }
    let mut prompt = "You are summarizing a roleplay conversation.\nRespond in 3-5 sentences maximum. Focus on: character names, key events, current emotional state, unresolved tensions.".to_owned();
    if let Some(prev) = previous {
        prompt.append("\n\nPrevious summary:\n");
        prompt.append(prev.content.as_str());
    }
    prompt.append("\n\nMessages to summarize:\n");
    let ghost head = prompt@;
    let n = uncovered.len();
    for i in 0..n
        invariant
            n == uncovered@.len(),
            prompt@ == head + summary_lines(uncovered@.take(i as int)),
    {
        let m = &uncovered[i];
        let ghost before = prompt@;
        prompt.append(m.role.as_upper_str());
        prompt.append(": ");
        prompt.append(m.content.as_str());
        prompt.append("\n");
        proof {
            assert(uncovered@.take(i + 1).drop_last() =~= uncovered@.take(i as int));
            assert(prompt@ =~= before + summary_line(uncovered@[i as int]));
        }
    }
    assert(uncovered@.take(n as int) =~= uncovered@);
    Some(
        SummaryPlan {
            prompt,
            range_start: uncovered[0].id,
            range_end: uncovered[n - 1].id,
        },
    )
}

/// The summary stored for a plan: the model's answer, covering the plan's range.
pub fn summary_from_plan(id: u128, conversation_id: u128, content: String, plan: &SummaryPlan, created_at: i64) -> (s: Summary)
    ensures
        s == (Summary {
            id,
            conversation_id,
            content,
            message_range_start: plan.range_start,
            message_range_end: plan.range_end,
            created_at,
        }),
{
    Summary {
        id,
        conversation_id,
        content,
        message_range_start: plan.range_start,
        message_range_end: plan.range_end,
        created_at,
    }
}

/// The summary prompt lists the uncovered messages one line each, in order, and nothing
/// else after its heading: with no message it is the instructions, the previous summary
/// (when there is one) and the heading; adding a message at the end adds exactly its line,
/// its upper-case role, `: `, its content and a line break, at the end.
pub proof fn lemma_summary_prompt_lists_messages(previous: Option<Seq<char>>, msgs: Seq<Message>, m: Message)
    ensures
        summary_prompt(previous, Seq::empty()) == summary_instructions() + match previous {
            Some(p) => "\n\nPrevious summary:\n"@ + p,
            None => Seq::empty(),
        } + "\n\nMessages to summarize:\n"@,
        summary_prompt(previous, msgs.push(m)) == summary_prompt(previous, msgs) + role_upper_text(
            m.role,
        ) + ": "@ + m.content@ + "\n"@,
{
    let prev: Seq<char> = match previous {
        Some(p) => "\n\nPrevious summary:\n"@ + p,
        None => Seq::empty(),
    };
    assert(summary_lines(Seq::<Message>::empty()) =~= Seq::<char>::empty());
    assert(summary_prompt(previous, Seq::empty()) =~= summary_instructions() + prev
        + "\n\nMessages to summarize:\n"@);
    assert(msgs.push(m).drop_last() =~= msgs);
    assert(summary_lines(msgs.push(m)) == summary_lines(msgs) + summary_line(m));
    assert(summary_prompt(previous, msgs.push(m)) =~= summary_prompt(previous, msgs)
        + role_upper_text(m.role) + ": "@ + m.content@ + "\n"@);
}

} // verus!
