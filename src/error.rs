//! The failures that the library decides on.
use vstd::prelude::*;
use vstd::string::*;
use crate::status::{reason_phrase_of, status_error_message, status_failure_text};

verus! {

/// A failure found before or after the one network call.
#[derive(Debug, Clone)]
pub enum QueryError {
    /// The token budget is zero.
    ZeroTokens,
    /// The environment variable `var`, which should hold the credential, is unset.
    MissingCredential { var: String },
    /// The prompt file holds no text.
    EmptyPrompt,
    /// The input file holds no text.
    EmptyInput,
    /// The server answered with a status outside the success range.
    HttpStatus { code: u16, body: String },
}

/// The message that reports `e`.
pub open spec fn error_text(e: QueryError) -> Seq<char> {
    match e {
        QueryError::ZeroTokens => "Token count must be greater than 0"@,
        QueryError::MissingCredential { var } => var@
            + " variable not set. Please provide your API token."@,
        QueryError::EmptyPrompt => "Prompt content from prompt file is empty."@,
        QueryError::EmptyInput => "Input content from input file is empty."@,
        QueryError::HttpStatus { code, body } => status_failure_text(
            code,
            reason_phrase_of(code),
            body@,
        ),
    }
}

impl QueryError {
    /// The human-readable message that reports this failure.
    pub fn message(&self) -> (r: String)
        ensures
            r@ == error_text(*self),
    {
        match self {
            QueryError::ZeroTokens => "Token count must be greater than 0".to_owned(),
            QueryError::MissingCredential { var } => {
                let mut out = var.clone();
                out.append(" variable not set. Please provide your API token.");
                out
            },
            QueryError::EmptyPrompt => "Prompt content from prompt file is empty.".to_owned(),
            QueryError::EmptyInput => "Input content from input file is empty.".to_owned(),
            QueryError::HttpStatus { code, body } => status_error_message(*code, body.as_str()),
        }
    }
}

} // verus!
