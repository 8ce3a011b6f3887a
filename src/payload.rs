//! The chat-completion request: its messages, its token limit and its JSON text.
use vstd::prelude::*;
use crate::error::QueryError;
use crate::text::{decimal, json_string_of, push_decimal, push_json_string};
use vstd::string::*;

verus! {

/// Role of the message that carries the prompt.
pub const ASSISTANT_ROLE: &'static str = "assistant";

/// Role of the message that carries the user's input.
pub const USER_ROLE: &'static str = "user";

/// One message of the request.
#[derive(Debug, Clone)]
pub struct RequestMessage {
    pub role: String,
    pub content: String,
}

/// The token budget and the field that reports it to the server.
#[derive(Debug, Clone, Copy, PartialEq, Eq, Structural)]
pub enum TokenLimit {
    /// Reported as `max_tokens`.
    Standard(u32),
    /// Reported as `max_completion_tokens`, for reasoning models.
    Reasoning(u32),
}

/// The body of a chat-completion request. An absent limit field is left out
/// of the JSON text entirely.
#[derive(Debug, Clone)]
pub struct RequestPayload {
    pub messages: Vec<RequestMessage>,
    pub model: String,
    pub max_tokens: Option<u32>,
    pub max_completion_tokens: Option<u32>,
}

/// The token limit that the reasoning flag selects.
pub open spec fn limit_for(tokens: u32, reasoning: bool) -> TokenLimit {
    if reasoning { TokenLimit::Reasoning(tokens) } else { TokenLimit::Standard(tokens) }
}

/// The `max_tokens` field that `limit` gives.
pub open spec fn max_tokens_of(limit: TokenLimit) -> Option<u32> {
    match limit {
        TokenLimit::Standard(n) => Some(n),
        TokenLimit::Reasoning(_) => None,
    }
}

/// The `max_completion_tokens` field that `limit` gives.
pub open spec fn max_completion_tokens_of(limit: TokenLimit) -> Option<u32> {
    match limit {
        TokenLimit::Standard(_) => None,
        TokenLimit::Reasoning(n) => Some(n),
    }
}

/// `m` has the given role and content.
pub open spec fn message_is(m: RequestMessage, role: Seq<char>, content: Seq<char>) -> bool {
    m.role@ == role && m.content@ == content
}

/// `p` is the request for prompt, input and model under `limit`: the prompt as
/// an assistant message, then the input as a user message.
pub open spec fn payload_is(
    p: RequestPayload,
    prompt: Seq<char>,
    input: Seq<char>,
    model: Seq<char>,
    limit: TokenLimit,
) -> bool {
    &&& p.messages@.len() == 2
    &&& message_is(p.messages@[0], ASSISTANT_ROLE@, prompt)
    &&& message_is(p.messages@[1], USER_ROLE@, input)
    &&& p.model@ == model
    &&& p.max_tokens == max_tokens_of(limit)
    &&& p.max_completion_tokens == max_completion_tokens_of(limit)
}

/// The JSON text of one message.
pub open spec fn message_json(m: RequestMessage) -> Seq<char> {
    "{\"role\":"@ + json_string_of(m.role@) + ",\"content\":"@ + json_string_of(m.content@) + "}"@
}

/// The JSON texts of `ms`, separated by commas.
pub open spec fn messages_json(ms: Seq<RequestMessage>) -> Seq<char>
    decreases ms.len(),
{
    if ms.len() == 0 {
        Seq::empty()
    } else if ms.len() == 1 {
        message_json(ms[0])
    } else {
        messages_json(ms.drop_last()) + ","@ + message_json(ms.last())
    }
}

/// The member `,"name":n` for a present limit field, nothing for an absent one.
pub open spec fn limit_json(name: Seq<char>, value: Option<u32>) -> Seq<char> {
    match value {
        Some(n) => ",\""@ + name + "\":"@ + decimal(n as nat),
        None => Seq::empty(),
    }
}

/// The JSON text of a request: messages, model, then the limit fields that
/// are present, in that order.
pub open spec fn payload_json(p: RequestPayload) -> Seq<char> {
    "{\"messages\":["@ + messages_json(p.messages@) + "],\"model\":"@ + json_string_of(p.model@)
        + limit_json("max_tokens"@, p.max_tokens) + limit_json(
        "max_completion_tokens"@,
        p.max_completion_tokens,
    ) + "}"@
}

impl RequestMessage {
    /// Appends the JSON text of this message to `out`.
    pub fn write_json(&self, out: &mut String)
        ensures
            final(out)@ == old(out)@ + message_json(*self),
    {
        out.append("{\"role\":");
        push_json_string(out, self.role.as_str());
        out.append(",\"content\":");
        push_json_string(out, self.content.as_str());
        out.append("}");
        assert(final(out)@ =~= old(out)@ + message_json(*self));
    }

    /// The JSON text of this message.
    pub fn to_json(&self) -> (r: String)
        ensures
            r@ == message_json(*self),
    {
        let mut out = String::new();
        self.write_json(&mut out);
        out
    }
}

/// Appends the member for a present limit field to `out`.
fn write_limit(out: &mut String, name: &str, value: Option<u32>)
    ensures
        final(out)@ == old(out)@ + limit_json(name@, value),
{
    match value {
        Some(n) => {
            out.append(",\"");
            out.append(name);
            out.append("\":");
            push_decimal(out, n as u64);
            assert(final(out)@ =~= old(out)@ + limit_json(name@, value));
        },
        None => {
            assert(final(out)@ =~= old(out)@ + limit_json(name@, value));
        },
    }
}

impl RequestPayload {
    /// The request with the given messages and model, reporting `limit` in the
    /// field that it selects and leaving the other one absent.
    pub fn new(messages: Vec<RequestMessage>, model: String, limit: TokenLimit) -> (r: Self)
        ensures
            r.messages@ == messages@,
            r.model@ == model@,
            r.max_tokens == max_tokens_of(limit),
            r.max_completion_tokens == max_completion_tokens_of(limit),
    {
        let (max_tokens, max_completion_tokens) = match limit {
            TokenLimit::Standard(n) => (Some(n), None),
            TokenLimit::Reasoning(n) => (None, Some(n)),
        };
        RequestPayload { messages, model, max_tokens, max_completion_tokens }
    }

    /// The JSON text of the request, as sent on the wire.
    pub fn to_json(&self) -> (r: String)
        ensures
            r@ == payload_json(*self),
    {
        let mut out = String::new();
        out.append("{\"messages\":[");
        let n = self.messages.len();
        let mut i: usize = 0;
        while i < n
            invariant
                n == self.messages@.len(),
                i <= n,
                out@ == "{\"messages\":["@ + messages_json(self.messages@.subrange(0, i as int)),
            decreases n - i,
        {
            let ghost before = out@;
            if i > 0 {
                out.append(",");
            }
            self.messages[i].write_json(&mut out);
            proof {
                let s = self.messages@.subrange(0, i + 1);
                assert(s.drop_last() =~= self.messages@.subrange(0, i as int));
                assert(s.last() == self.messages@[i as int]);
                if i == 0 {
                    assert(s.len() == 1);
                    assert(messages_json(self.messages@.subrange(0, 0)) =~= Seq::<char>::empty());
                }
            }
            assert(out@ =~= "{\"messages\":["@ + messages_json(self.messages@.subrange(0, i + 1)));
            i = i + 1;
        }
        assert(self.messages@.subrange(0, n as int) =~= self.messages@);
        out.append("],\"model\":");
        push_json_string(&mut out, self.model.as_str());
        write_limit(&mut out, "max_tokens", self.max_tokens);
        write_limit(&mut out, "max_completion_tokens", self.max_completion_tokens);
        out.append("}");
        assert(out@ =~= payload_json(*self));
        out
    }
}

/// Builds the request for a prompt, an input and a model, after checking the
/// token budget, then the prompt, then the input; the reasoning flag selects
/// the limit field.
pub fn build_payload(prompt: String, input: String, model: &str, tokens: u32, reasoning: bool) -> (r:
    Result<RequestPayload, QueryError>)
    ensures
        tokens == 0 ==> r matches Err(QueryError::ZeroTokens),
        tokens > 0 && prompt@.len() == 0 ==> r matches Err(QueryError::EmptyPrompt),
        tokens > 0 && prompt@.len() > 0 && input@.len() == 0 ==> r matches Err(
            QueryError::EmptyInput,
        ),
        tokens > 0 && prompt@.len() > 0 && input@.len() > 0 ==> (r matches Ok(p) && payload_is(
            p,
            prompt@,
            input@,
            model@,
            limit_for(tokens, reasoning),
        )),
{
    if tokens == 0 {
        return Err(QueryError::ZeroTokens);
    }
    if prompt.as_str().is_empty() {
        return Err(QueryError::EmptyPrompt);
    }
    if input.as_str().is_empty() {
        return Err(QueryError::EmptyInput);
    }
    let mut messages: Vec<RequestMessage> = Vec::new();
    messages.push(RequestMessage { role: ASSISTANT_ROLE.to_owned(), content: prompt });
    messages.push(RequestMessage { role: USER_ROLE.to_owned(), content: input });
    let limit = if reasoning { TokenLimit::Reasoning(tokens) } else { TokenLimit::Standard(tokens) };
    Ok(RequestPayload::new(messages, model.to_owned(), limit))
}

/// The JSON text of a built request holds exactly one limit member: with the
/// reasoning flag set it is `max_completion_tokens`, otherwise `max_tokens`,
/// and the other name is absent rather than null.
pub proof fn lemma_one_limit_field(
    p: RequestPayload,
    prompt: Seq<char>,
    input: Seq<char>,
    model: Seq<char>,
    tokens: u32,
    reasoning: bool,
)
    requires
        payload_is(p, prompt, input, model, limit_for(tokens, reasoning)),
    ensures
        payload_json(p) == "{\"messages\":["@ + message_json(p.messages@[0]) + ","@ + message_json(
            p.messages@[1],
        ) + "],\"model\":"@ + json_string_of(model) + (if reasoning {
            ",\"max_completion_tokens\":"@
        } else {
            ",\"max_tokens\":"@
        }) + decimal(tokens as nat) + "}"@,
{
    reveal_strlit(",\"");
    reveal_strlit("\":");
    reveal_strlit("max_tokens");
    reveal_strlit(",\"max_tokens\":");
    reveal_strlit("max_completion_tokens");
    reveal_strlit(",\"max_completion_tokens\":");
    let ms = p.messages@;
    assert(ms.drop_last().len() == 1);
    assert(ms.drop_last()[0] == ms[0]);
    assert(ms.last() == ms[1]);
    assert(messages_json(ms.drop_last()) == message_json(ms[0]));
    assert(messages_json(ms) == message_json(ms[0]) + ","@ + message_json(ms[1]));
    if reasoning {
        assert(",\""@ + "max_completion_tokens"@ + "\":"@ =~= ",\"max_completion_tokens\":"@);
    } else {
        assert(",\""@ + "max_tokens"@ + "\":"@ =~= ",\"max_tokens\":"@);
    }
    assert(payload_json(p) =~= "{\"messages\":["@ + message_json(p.messages@[0]) + ","@
        + message_json(p.messages@[1]) + "],\"model\":"@ + json_string_of(model) + (if reasoning {
        ",\"max_completion_tokens\":"@
    } else {
        ",\"max_tokens\":"@
    }) + decimal(tokens as nat) + "}"@);
}

/// A request without messages still has a well-formed text: an empty array
/// directly followed by the model.
pub proof fn lemma_empty_messages_json(p: RequestPayload)
    requires
        p.messages@.len() == 0,
    ensures
        payload_json(p) == "{\"messages\":[],\"model\":"@ + json_string_of(p.model@) + limit_json(
            "max_tokens"@,
            p.max_tokens,
        ) + limit_json("max_completion_tokens"@, p.max_completion_tokens) + "}"@,
{
    reveal_strlit("{\"messages\":[");
    reveal_strlit("],\"model\":");
    reveal_strlit("{\"messages\":[],\"model\":");
    assert("{\"messages\":["@ + messages_json(p.messages@) + "],\"model\":"@ =~= "{\"messages\":[],\"model\":"@);
    assert(payload_json(p) =~= "{\"messages\":[],\"model\":"@ + json_string_of(p.model@) + limit_json(
            "max_tokens"@,
            p.max_tokens,
        ) + limit_json("max_completion_tokens"@, p.max_completion_tokens) + "}"@);
}

} // verus!
