//! The consultant's conversation with a model: after each reply, whether
//! the answer is final, which tools the model asked for, or why the
//! conversation failed. Sending requests and running tools is left to the
//! caller, which reports each reply back.
use crate::text::{append_chars, append_str, chars_of, string_of};
use vstd::prelude::*;

verus! {

/// A part of a Gemini reply: its text, or the name of the function the
/// model calls.
pub struct ReplyPart {
    pub text: Option<String>,
    pub function_call: Option<String>,
}

/// A candidate answer of a Gemini reply, with its parts when it has
/// content.
pub struct ReplyCandidate {
    pub parts: Option<Vec<ReplyPart>>,
}

/// What Gemini sent back to one request.
pub enum GeminiReply {
    /// The request failed with this HTTP status text body.
    ApiError(String),
    /// A reply, with its candidates when there are any.
    Candidates(Option<Vec<ReplyCandidate>>),
}

/// What to do after a Gemini reply.
pub enum GeminiStep {
    /// The conversation ends with this answer.
    Answer(String),
    /// Call this function, add the call and its result to the
    /// conversation, and ask again.
    CallTool(String),
    /// The conversation fails with this message.
    Fail(String),
}

/// The part the consultant reads: the last part of the last candidate.
pub open spec fn last_part(cands: Option<Vec<ReplyCandidate>>) -> Option<ReplyPart> {
    match cands {
        Some(cs) => if cs@.len() == 0 {
            None
        } else {
            match cs@.last().parts {
                Some(ps) => if ps@.len() == 0 {
                    None
                } else {
                    Some(ps@.last())
                },
                None => None,
            }
        },
        None => None,
    }
}

/// The step after a Gemini reply: fail on an API error; answer with the
/// read part's text; else call the function it names; else fail.
pub open spec fn gemini_step_for(reply: GeminiReply, step: GeminiStep) -> bool {
    match reply {
        GeminiReply::ApiError(body) => step matches GeminiStep::Fail(m) && m@ == "API Error: "@ + body@,
        GeminiReply::Candidates(cs) => match last_part(cs) {
            Some(p) => match p.text {
                Some(t) => step matches GeminiStep::Answer(a) && a@ == t@,
                None => match p.function_call {
                    Some(f) => step matches GeminiStep::CallTool(n) && n@ == f@,
                    None => step matches GeminiStep::Fail(m) && m@ == "No answer or invalid response part"@,
                },
            },
            None => step matches GeminiStep::Fail(m) && m@ == "No answer or invalid response part"@,
        },
    }
}

fn no_answer() -> (r: GeminiStep)
    ensures
        r matches GeminiStep::Fail(m) && m@ == "No answer or invalid response part"@,
{
    GeminiStep::Fail(string_of(&chars_of("No answer or invalid response part")))
}

/// The step after a Gemini reply.
pub fn gemini_step(reply: GeminiReply) -> (r: GeminiStep)
    ensures
        gemini_step_for(reply, r),
{
    match reply {
        GeminiReply::ApiError(body) => {
            let mut v = chars_of("API Error: ");
            append_str(&mut v, body.as_str());
            GeminiStep::Fail(string_of(&v))
        },
        GeminiReply::Candidates(cs) => {
            let mut cs = match cs {
                Some(c) => c,
                None => {
                    return no_answer();
                },
            };
            let ghost all = cs@;
            let cand = match cs.pop() {
                Some(c) => c,
                None => {
                    return no_answer();
                },
            };
            assert(cand == all.last());
            let mut parts = match cand.parts {
                Some(p) => p,
                None => {
                    return no_answer();
                },
            };
            let ghost ps = parts@;
            let part = match parts.pop() {
                Some(p) => p,
                None => {
                    return no_answer();
                },
            };
            assert(part == ps.last());
            match part.text {
                Some(t) => GeminiStep::Answer(t),
                None => match part.function_call {
                    Some(f) => GeminiStep::CallTool(f),
                    None => no_answer(),
                },
            }
        },
    }
}

/// A content block of a Bedrock reply: text, a tool use (by its position
/// among the blocks), or something else.
pub enum ReplyBlock {
    Text(String),
    ToolUse,
    Other,
}

/// What to do after a Bedrock reply.
pub enum BedrockStep {
    /// The conversation ends with this answer.
    Answer(String),
    /// Run the tools of the blocks at these positions, in order, send their
    /// results back and ask again.
    RunTools(Vec<usize>),
}

/// The text of a reply: its text blocks, concatenated in order.
pub open spec fn reply_text(blocks: Seq<ReplyBlock>) -> Seq<char>
    decreases blocks.len(),
{
    if blocks.len() == 0 {
        seq![]
    } else {
        reply_text(blocks.drop_last()) + match blocks.last() {
            ReplyBlock::Text(t) => t@,
            _ => Seq::<char>::empty(),
        }
    }
}

/// The positions of the tool-use blocks of a reply, in order.
pub open spec fn tool_positions(blocks: Seq<ReplyBlock>) -> Seq<usize>
    decreases blocks.len(),
{
    if blocks.len() == 0 {
        seq![]
    } else {
        tool_positions(blocks.drop_last()) + if blocks.last() is ToolUse {
            seq![(blocks.len() - 1) as usize]
        } else {
            seq![]
        }
    }
}

/// The step after a Bedrock reply: run the tools it asks for, if any;
/// else its text is the answer.
pub fn bedrock_step(blocks: &Vec<ReplyBlock>) -> (r: BedrockStep)
    ensures
        tool_positions(blocks@).len() > 0 ==> (r matches BedrockStep::RunTools(p) && p@ == tool_positions(blocks@)),
        tool_positions(blocks@).len() == 0 ==> (r matches BedrockStep::Answer(t) && t@ == reply_text(blocks@)),
{
    let mut text: Vec<char> = Vec::new();
    let mut tools: Vec<usize> = Vec::new();
    let mut i: usize = 0;
    while i < blocks.len()
        invariant
            i <= blocks@.len(),
            text@ == reply_text(blocks@.take(i as int)),
            tools@ == tool_positions(blocks@.take(i as int)),
        decreases blocks.len() - i,
    {
        proof {
            assert(blocks@.take(i as int + 1).drop_last() == blocks@.take(i as int));
        }
        match &blocks[i] {
            ReplyBlock::Text(t) => {
                append_chars(&mut text, &chars_of(t.as_str()));
            },
            ReplyBlock::ToolUse => {
                tools.push(i);
            },
            ReplyBlock::Other => {},
        }
        assert(text@ == reply_text(blocks@.take(i as int + 1)));
        i = i + 1;
    }
    assert(blocks@.take(blocks@.len() as int) == blocks@);
    if tools.len() > 0 {
        BedrockStep::RunTools(tools)
    } else {
        BedrockStep::Answer(string_of(&text))
    }
}

/// The error text sent back to the model for a tool that failed.
pub fn tool_panic_message(detail: &str) -> (r: String)
    ensures
        r@ == "Tool execution panicked: "@ + detail@,
{
    let mut v = chars_of("Tool execution panicked: ");
    append_str(&mut v, detail);
    string_of(&v)
}

} // verus!
