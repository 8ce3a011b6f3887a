//! The chat-completion response as the server sends it, and what the client
//! takes from it.
use vstd::prelude::*;

verus! {

/// `serde_json::Value`, carried opaquely for the fields that the client passes
/// through without reading.
#[verifier::external_type_specification]
#[verifier::external_body]
pub struct ExValue(serde_json::Value);

/// The whole response: metadata, the completion choices and token usage.
#[derive(Default, Debug, Clone, PartialEq)]
pub struct ApiResponse {
    pub id: String,
    pub object: String,
    pub created: i64,
    pub model: String,
    pub choices: Vec<Choice>,
    pub usage: Usage,
    pub service_tier: Option<String>,
    pub system_fingerprint: Option<String>,
}

/// One candidate completion.
#[derive(Default, Debug, Clone, PartialEq)]
pub struct Choice {
    pub index: i64,
    pub message: Message,
    pub finish_reason: String,
    pub logprobs: Option<serde_json::Value>,
    pub content_filter_results: Option<ContentFilterResults>,
}

/// The message of a choice.
#[derive(Default, Debug, Clone, PartialEq)]
pub struct Message {
    pub role: String,
    pub content: String,
    pub refusal: Option<serde_json::Value>,
    pub annotations: Option<Vec<serde_json::Value>>,
}

/// What the server's content filters found.
#[derive(Default, Debug, Clone, PartialEq)]
pub struct ContentFilterResults {
    pub hate: Hate,
    pub self_harm: SelfHarm,
    pub sexual: Sexual,
    pub violence: Violence,
    pub jailbreak: Jailbreak,
    pub profanity: Profanity,
}

#[derive(Default, Debug, Clone, Copy, PartialEq, Eq)]
pub struct Hate {
    pub filtered: bool,
}

#[derive(Default, Debug, Clone, Copy, PartialEq, Eq)]
pub struct SelfHarm {
    pub filtered: bool,
}

#[derive(Default, Debug, Clone, Copy, PartialEq, Eq)]
pub struct Sexual {
    pub filtered: bool,
}

#[derive(Default, Debug, Clone, Copy, PartialEq, Eq)]
pub struct Violence {
    pub filtered: bool,
}

#[derive(Default, Debug, Clone, Copy, PartialEq, Eq)]
pub struct Jailbreak {
    pub filtered: bool,
    pub detected: bool,
}

#[derive(Default, Debug, Clone, Copy, PartialEq, Eq)]
pub struct Profanity {
    pub filtered: bool,
    pub detected: bool,
}

/// Token counts of the request.
#[derive(Default, Debug, Clone, PartialEq)]
pub struct Usage {
    pub prompt_tokens: i64,
    pub completion_tokens: i64,
    pub total_tokens: i64,
    pub prompt_tokens_details: Option<PromptTokensDetails>,
    pub completion_tokens_details: Option<CompletionTokensDetails>,
}

#[derive(Default, Debug, Clone, Copy, PartialEq, Eq)]
pub struct PromptTokensDetails {
    pub cached_tokens: Option<i64>,
    pub audio_tokens: Option<i64>,
}

#[derive(Default, Debug, Clone, Copy, PartialEq, Eq)]
pub struct CompletionTokensDetails {
    pub reasoning_tokens: Option<i64>,
    pub audio_tokens: Option<i64>,
    pub accepted_prediction_tokens: Option<i64>,
    pub rejected_prediction_tokens: Option<i64>,
}

impl ApiResponse {
    /// The content of the first choice; none when the server sent no choice.
    pub fn first_content(&self) -> (r: Option<&String>)
        ensures
            r is Some <==> self.choices@.len() > 0,
            r matches Some(c) ==> c@ == self.choices@[0].message.content@,
    {
        if self.choices.len() > 0 {
            Some(&self.choices[0].message.content)
        } else {
            None
        }
    }
}

} // verus!
